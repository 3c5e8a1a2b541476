//! The routing of internal command identifiers to mailbox commands: which
//! commands have a handler, and the external command code of each.
use crate::host::command_types::CaliptraCommandId;
use crate::host::fuse::OCP_LOCK_FAMILY_ID;
use vstd::prelude::*;

verus! {

/// The external code of the device ownership transfer family, shared by all
/// its commands.
pub const DOT_FAMILY_ID: u32 = 0x0000_0011;

/// The command whose handler serves an internal command identifier, if any.
pub open spec fn handled_command(command_id: u32) -> Option<CaliptraCommandId> {
    match command_id {
        0x1 => Some(CaliptraCommandId::GetFirmwareVersion),
        0x2 => Some(CaliptraCommandId::GetDeviceCapabilities),
        0x1005 => Some(CaliptraCommandId::ExportAttestedCsr),
        0x1007 => Some(CaliptraCommandId::GetAttestation),
        0x2001 => Some(CaliptraCommandId::HashInit),
        0x2002 => Some(CaliptraCommandId::HashUpdate),
        0x2003 => Some(CaliptraCommandId::HashFinalize),
        0x2013 => Some(CaliptraCommandId::Hmac),
        0x2014 => Some(CaliptraCommandId::HmacKdfCounter),
        0x2015 => Some(CaliptraCommandId::Import),
        0x2016 => Some(CaliptraCommandId::Delete),
        0x3001 => Some(CaliptraCommandId::AesEncryptInit),
        0x3002 => Some(CaliptraCommandId::AesEncryptUpdate),
        0x3003 => Some(CaliptraCommandId::AesDecryptInit),
        0x3004 => Some(CaliptraCommandId::AesDecryptUpdate),
        0x3010 => Some(CaliptraCommandId::AesGcmEncryptInit),
        0x3011 => Some(CaliptraCommandId::AesGcmEncryptUpdate),
        0x3012 => Some(CaliptraCommandId::AesGcmEncryptFinal),
        0x3013 => Some(CaliptraCommandId::AesGcmDecryptInit),
        0x3014 => Some(CaliptraCommandId::AesGcmDecryptUpdate),
        0x3015 => Some(CaliptraCommandId::AesGcmDecryptFinal),
        0x4001 => Some(CaliptraCommandId::EcdsaSign),
        0x4002 => Some(CaliptraCommandId::EcdsaVerify),
        0x4003 => Some(CaliptraCommandId::EcdhGenerate),
        0x4004 => Some(CaliptraCommandId::EcdsaPublicKey),
        0x4005 => Some(CaliptraCommandId::EcdhFinish),
        0x7005 => Some(CaliptraCommandId::DebugGetLog),
        0x7008 => Some(CaliptraCommandId::DebugClearLog),
        0x7010 => Some(CaliptraCommandId::ProdDebugUnlockReq),
        0x7011 => Some(CaliptraCommandId::ProdDebugUnlockToken),
        0x8010 => Some(CaliptraCommandId::GetAuthCmdChallenge),
        0x8011 => Some(CaliptraCommandId::FeProg),
        0x8012 => Some(CaliptraCommandId::ProvisionVendorPkHash),
        0x8013 => Some(CaliptraCommandId::FuseIncreaseCaliptraMinSvn),
        0x8014 => Some(CaliptraCommandId::FuseRevokeVendorPubKey),
        0x8015 => Some(CaliptraCommandId::FuseRevokeVendorPkHash),
        0x8016 => Some(CaliptraCommandId::FuseLockPartition),
        0x8018 => Some(CaliptraCommandId::OcpLockRotateHek),
        0x8019 => Some(CaliptraCommandId::OcpLockSetPermaHek),
        0x8020 => Some(CaliptraCommandId::DotLock),
        0x8021 => Some(CaliptraCommandId::DotDisable),
        0x8022 => Some(CaliptraCommandId::DotUnlockChallenge),
        0x8023 => Some(CaliptraCommandId::DotUnlock),
        0x8024 => Some(CaliptraCommandId::DotRotate),
        0x8025 => Some(CaliptraCommandId::GetDotBackupBlob),
        0x8026 => Some(CaliptraCommandId::DotStatus),
        0x8027 => Some(CaliptraCommandId::DotRecovery),
        0x8028 => Some(CaliptraCommandId::DotOverrideChallenge),
        0x8029 => Some(CaliptraCommandId::DotOverride),
        _ => None,
    }
}

/// The external mailbox command code of an internal command identifier, if
/// any.
pub open spec fn external_cmd_code(command_id: u32) -> Option<u32> {
    match command_id {
        0x1 => Some(0x4d465756u32),
        0x2 => Some(0x4d434150u32),
        0x2001 => Some(0x4d435349u32),
        0x2002 => Some(0x4d435355u32),
        0x2003 => Some(0x4d435346u32),
        0x2013 => Some(0x4d43484du32),
        0x2014 => Some(0x4d434b43u32),
        0x2015 => Some(0x4d43494du32),
        0x2016 => Some(0x4d43444cu32),
        0x3001 => Some(0x4d434349u32),
        0x3002 => Some(0x4d434355u32),
        0x3003 => Some(0x4d43414au32),
        0x3004 => Some(0x4d434155u32),
        0x3010 => Some(0x4d434749u32),
        0x3011 => Some(0x4d434755u32),
        0x3012 => Some(0x4d434746u32),
        0x3013 => Some(0x4d434449u32),
        0x3014 => Some(0x4d434455u32),
        0x3015 => Some(0x4d434446u32),
        0x4001 => Some(0x4d434553u32),
        0x4002 => Some(0x4d434556u32),
        0x4003 => Some(0x4d434547u32),
        0x4004 => Some(0x4d434550u32),
        0x4005 => Some(0x4d434546u32),
        0x7005 => Some(0x4d474c47u32),
        0x7008 => Some(0x4d434c47u32),
        0x7010 => Some(0x4d505552u32),
        0x7011 => Some(0x4d505554u32),
        0x1005 => Some(0x4d454143u32),
        0x1007 => Some(0x4d474154u32),
        0x8010 => Some(0x4d414343u32),
        0x8011 => Some(0x4d434650u32),
        0x8012 => Some(0x5056504bu32),
        0x8013 => Some(0x4d434d53u32),
        0x8014 => Some(0x4d52564bu32),
        0x8015 => Some(0x52564b48u32),
        0x8016 => Some(0x4946504bu32),
        0x8018 => Some(OCP_LOCK_FAMILY_ID),
        0x8019 => Some(OCP_LOCK_FAMILY_ID),
        v if 0x8020 <= v && v <= 0x8029 => Some(DOT_FAMILY_ID),
        _ => None,
    }
}

/// The command whose handler serves an internal command identifier, or
/// `None` when the identifier is not recognized. The handler itself is the
/// transport's routine for that command.
pub fn get_command_handler(command_id: u32) -> (r: Option<CaliptraCommandId>)
    ensures
        r == handled_command(command_id),
{
    match command_id {
        0x1 => Some(CaliptraCommandId::GetFirmwareVersion),
        0x2 => Some(CaliptraCommandId::GetDeviceCapabilities),
        0x1005 => Some(CaliptraCommandId::ExportAttestedCsr),
        0x1007 => Some(CaliptraCommandId::GetAttestation),
        0x2001 => Some(CaliptraCommandId::HashInit),
        0x2002 => Some(CaliptraCommandId::HashUpdate),
        0x2003 => Some(CaliptraCommandId::HashFinalize),
        0x2013 => Some(CaliptraCommandId::Hmac),
        0x2014 => Some(CaliptraCommandId::HmacKdfCounter),
        0x2015 => Some(CaliptraCommandId::Import),
        0x2016 => Some(CaliptraCommandId::Delete),
        0x3001 => Some(CaliptraCommandId::AesEncryptInit),
        0x3002 => Some(CaliptraCommandId::AesEncryptUpdate),
        0x3003 => Some(CaliptraCommandId::AesDecryptInit),
        0x3004 => Some(CaliptraCommandId::AesDecryptUpdate),
        0x3010 => Some(CaliptraCommandId::AesGcmEncryptInit),
        0x3011 => Some(CaliptraCommandId::AesGcmEncryptUpdate),
        0x3012 => Some(CaliptraCommandId::AesGcmEncryptFinal),
        0x3013 => Some(CaliptraCommandId::AesGcmDecryptInit),
        0x3014 => Some(CaliptraCommandId::AesGcmDecryptUpdate),
        0x3015 => Some(CaliptraCommandId::AesGcmDecryptFinal),
        0x4001 => Some(CaliptraCommandId::EcdsaSign),
        0x4002 => Some(CaliptraCommandId::EcdsaVerify),
        0x4003 => Some(CaliptraCommandId::EcdhGenerate),
        0x4004 => Some(CaliptraCommandId::EcdsaPublicKey),
        0x4005 => Some(CaliptraCommandId::EcdhFinish),
        0x7005 => Some(CaliptraCommandId::DebugGetLog),
        0x7008 => Some(CaliptraCommandId::DebugClearLog),
        0x7010 => Some(CaliptraCommandId::ProdDebugUnlockReq),
        0x7011 => Some(CaliptraCommandId::ProdDebugUnlockToken),
        0x8010 => Some(CaliptraCommandId::GetAuthCmdChallenge),
        0x8011 => Some(CaliptraCommandId::FeProg),
        0x8012 => Some(CaliptraCommandId::ProvisionVendorPkHash),
        0x8013 => Some(CaliptraCommandId::FuseIncreaseCaliptraMinSvn),
        0x8014 => Some(CaliptraCommandId::FuseRevokeVendorPubKey),
        0x8015 => Some(CaliptraCommandId::FuseRevokeVendorPkHash),
        0x8016 => Some(CaliptraCommandId::FuseLockPartition),
        0x8018 => Some(CaliptraCommandId::OcpLockRotateHek),
        0x8019 => Some(CaliptraCommandId::OcpLockSetPermaHek),
        0x8020 => Some(CaliptraCommandId::DotLock),
        0x8021 => Some(CaliptraCommandId::DotDisable),
        0x8022 => Some(CaliptraCommandId::DotUnlockChallenge),
        0x8023 => Some(CaliptraCommandId::DotUnlock),
        0x8024 => Some(CaliptraCommandId::DotRotate),
        0x8025 => Some(CaliptraCommandId::GetDotBackupBlob),
        0x8026 => Some(CaliptraCommandId::DotStatus),
        0x8027 => Some(CaliptraCommandId::DotRecovery),
        0x8028 => Some(CaliptraCommandId::DotOverrideChallenge),
        0x8029 => Some(CaliptraCommandId::DotOverride),
        _ => None,
    }
}

/// The external mailbox command code (four ASCII letters, or the family code
/// of the device ownership transfer and OCP Lock commands, whose subcommand
/// travels in the payload) of an internal command identifier, or `None`
/// when the identifier is not recognized.
pub fn get_external_cmd_code(command_id: u32) -> (r: Option<u32>)
    ensures
        r == external_cmd_code(command_id),
{
    match command_id {
        0x1 => Some(0x4d465756),
        0x2 => Some(0x4d434150),
        0x2001 => Some(0x4d435349),
        0x2002 => Some(0x4d435355),
        0x2003 => Some(0x4d435346),
        0x2013 => Some(0x4d43484d),
        0x2014 => Some(0x4d434b43),
        0x2015 => Some(0x4d43494d),
        0x2016 => Some(0x4d43444c),
        0x3001 => Some(0x4d434349),
        0x3002 => Some(0x4d434355),
        0x3003 => Some(0x4d43414a),
        0x3004 => Some(0x4d434155),
        0x3010 => Some(0x4d434749),
        0x3011 => Some(0x4d434755),
        0x3012 => Some(0x4d434746),
        0x3013 => Some(0x4d434449),
        0x3014 => Some(0x4d434455),
        0x3015 => Some(0x4d434446),
        0x4001 => Some(0x4d434553),
        0x4002 => Some(0x4d434556),
        0x4003 => Some(0x4d434547),
        0x4004 => Some(0x4d434550),
        0x4005 => Some(0x4d434546),
        0x7005 => Some(0x4d474c47),
        0x7008 => Some(0x4d434c47),
        0x7010 => Some(0x4d505552),
        0x7011 => Some(0x4d505554),
        0x1005 => Some(0x4d454143),
        0x1007 => Some(0x4d474154),
        0x8010 => Some(0x4d414343),
        0x8011 => Some(0x4d434650),
        0x8012 => Some(0x5056504b),
        0x8013 => Some(0x4d434d53),
        0x8014 => Some(0x4d52564b),
        0x8015 => Some(0x52564b48),
        0x8016 => Some(0x4946504b),
        0x8018 => Some(OCP_LOCK_FAMILY_ID),
        0x8019 => Some(OCP_LOCK_FAMILY_ID),
        v if 0x8020 <= v && v <= 0x8029 => Some(DOT_FAMILY_ID),
        _ => None,
    }
}

/// A command identifier has a handler exactly when it has an external
/// command code, and the handler serves the command of that identifier.
pub proof fn lemma_dispatch_tables_agree(command_id: u32)
    ensures
        handled_command(command_id) is Some <==> external_cmd_code(command_id) is Some,
        handled_command(command_id) matches Some(c) ==> c.to_u32() == command_id,
{
}

/// Every device ownership transfer command is routed to the family code.
pub proof fn lemma_dot_commands_use_family_code(command_id: u32)
    requires
        0x8020 <= command_id <= 0x8029,
    ensures
        external_cmd_code(command_id) == Some(DOT_FAMILY_ID),
        handled_command(command_id) is Some,
{
}

/// Both OCP Lock commands are routed to the OCP Lock family code (0x13); the
/// subcommand that tells them apart travels in the request payload.
pub proof fn lemma_ocp_lock_commands_use_family_code(command_id: u32)
    requires
        command_id == 0x8018 || command_id == 0x8019,
    ensures
        external_cmd_code(command_id) == Some(OCP_LOCK_FAMILY_ID),
        OCP_LOCK_FAMILY_ID == 0x13,
        handled_command(command_id) is Some,
{
}

} // verus!
