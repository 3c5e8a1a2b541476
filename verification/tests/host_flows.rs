use mcu_common::builder::{platform_of, runtime_feature_plan, BuildPlanError, Platform};
use mcu_common::host::attestation::{
    attestation_start, attestation_step, csr_result, mentions_not_supported, AttestationCheck,
    AttestationDetail, AttestationEvent, AttestationResult, AttestationStage, CsrDetail, CsrOutcome,
};
use mcu_common::host::dot::{
    blob_nonzero, dot_backup_blob_payload, dot_disable_payload, dot_lock_payload,
    dot_detail, dot_rotate_payload, dot_start, dot_step, dot_unlock_transcript, DotCheck, DotDetail,
    DotEvent, DotStage,
    DotStartError, DOT_ROTATE_MIN_FUSE_COUNT,
};
use mcu_common::host::fuse_suite::{
    fuse_suite, fuse_suite_start, response_detail, step_passes, suite_steps, CommandOutcome,
    CompletionCode, Expectation, ResponseDetail,
    FuseCommand, FuseSuite, SuiteStart, UNKNOWN_SUITE_CHECK_NAME,
};
use mcu_common::host::negative_auth::{
    flip_first_bit, negative_auth_start, negative_auth_step, probe, signed_payload, Mutation,
    negative_auth_detail, NegAuthCheck, NegAuthEvent, NegAuthProbe, NegAuthStage,
};
use mcu_common::host::sequences::{
    fe_prog_start, fe_prog_step, unlock_step, FeProgDetail, FeProgStage, UnlockDetail, UnlockStage,
};
use mcu_common::host::provision::{parse_pk_hash, vendor_pk_hash_payload, PkHashError};
use mcu_common::host::plan::{plan_validations, Validation, ValidationConfig};
use mcu_common::host::validator::ValidationStatus;
use mcu_common::mbox::messages::McuMboxError;
use mcu_common::mbox::request::{
    request_wire_len, response_wire_len, McuMailboxReqKind, McuMailboxRespKind,
};

const CAK_HEX: &str = "000102030405060708090a0b0c0d0e0f101112131415161718191a1b1c1d1e1f202122232425262728292A2B2C2D2E2F";

#[test]
fn dot_start_checks_signers_and_cak() {
    assert_eq!(dot_start(false, true, Some(CAK_HEX)), Err(DotStartError::NoAuthorizer));
    assert_eq!(dot_start(true, false, Some(CAK_HEX)), Err(DotStartError::NoSigner));
    assert_eq!(dot_start(true, true, None), Err(DotStartError::NoCak));
    assert_eq!(dot_start(true, true, Some("0g")), Err(DotStartError::InvalidCakHex));
    assert_eq!(dot_start(true, true, Some("abc")), Err(DotStartError::InvalidCakHex));
    assert_eq!(dot_start(true, true, Some("abcd")), Err(DotStartError::InvalidCakLength(2)));
    let cak = dot_start(true, true, Some(CAK_HEX)).unwrap();
    assert_eq!(cak.len(), 48);
    assert_eq!(cak[0], 0);
    assert_eq!(cak[42], 0x2a);
    assert_eq!(cak[47], 0x2f);
    assert_eq!(DotStartError::NoAuthorizer.result(), (DotCheck::Lock, ValidationStatus::Skip));
    assert_eq!(
        DotStartError::NoSigner.result(),
        (DotCheck::UnlockChallenge, ValidationStatus::Skip)
    );
    assert_eq!(DotStartError::NoCak.result(), (DotCheck::Lock, ValidationStatus::Fail));
}

#[test]
fn dot_sequence_runs_to_the_end_when_every_step_succeeds() {
    let committed = DotEvent::Transition { reset_required: 1 };
    let events = [
        DotEvent::Status { enabled: 1, locked: 0, burned: 2 },
        DotEvent::Succeeded,
        committed,
        DotEvent::Blob { nonzero: true },
        committed,
        DotEvent::Succeeded,
        DotEvent::Succeeded,
        committed,
        committed,
    ];
    let mut stage = DotStage::Status;
    let mut results = Vec::new();
    for e in events {
        let (next, rec) = dot_step(stage, e);
        if let Some(r) = rec {
            results.push(r);
        }
        stage = next;
    }
    assert_eq!(stage, DotStage::Done);
    let names: Vec<&str> = results.iter().map(|(c, _)| c.name()).collect();
    assert_eq!(
        names,
        vec![
            "DotStatus",
            "DotLock",
            "GetDotBackupBlob",
            "DotRotate",
            "DotUnlockChallenge",
            "DotUnlock",
            "DotDisable"
        ]
    );
    assert!(results.iter().all(|(_, s)| *s == ValidationStatus::Pass));
}

#[test]
fn dot_sequence_stops_at_the_first_failure() {
    assert_eq!(
        dot_step(DotStage::Status, DotEvent::Status { enabled: 1, locked: 1, burned: 2 }),
        (DotStage::Done, Some((DotCheck::Status, ValidationStatus::Fail)))
    );
    assert_eq!(
        dot_step(DotStage::Lock, DotEvent::Transition { reset_required: 0 }),
        (DotStage::Done, Some((DotCheck::Lock, ValidationStatus::Fail)))
    );
    assert_eq!(
        dot_step(DotStage::BackupBlob, DotEvent::Blob { nonzero: false }),
        (DotStage::Done, Some((DotCheck::BackupBlob, ValidationStatus::Fail)))
    );
    assert_eq!(
        dot_step(DotStage::Keys, DotEvent::Failed),
        (DotStage::Done, Some((DotCheck::Lock, ValidationStatus::Fail)))
    );
    assert_eq!(
        dot_step(DotStage::SignUnlock, DotEvent::Failed),
        (DotStage::Done, Some((DotCheck::Unlock, ValidationStatus::Fail)))
    );
    assert_eq!(
        dot_step(DotStage::Disable, DotEvent::Failed),
        (DotStage::Done, Some((DotCheck::Disable, ValidationStatus::Fail)))
    );
    assert_eq!(dot_step(DotStage::Done, DotEvent::Succeeded), (DotStage::Done, None));
    assert!(blob_nonzero(&[0, 0, 3]));
    assert!(!blob_nonzero(&[0; 8]));
}

#[test]
fn dot_payloads_have_exact_layouts() {
    let cak = [0x11u8; 48];
    let lak = [0x22u8; 48];
    let lock = dot_lock_payload(&cak, &lak);
    assert_eq!(&lock[..4], &[0x4B, 0x4C, 0x44, 0x4D]);
    assert_eq!(lock.len(), 100);
    assert_eq!(lock[4], 0x11);
    assert_eq!(lock[52], 0x22);
    assert_eq!(dot_backup_blob_payload(), vec![0x42, 0x42, 0x44, 0x4D]);
    let rotate = dot_rotate_payload(DOT_ROTATE_MIN_FUSE_COUNT, &cak, &lak);
    assert_eq!(&rotate[..8], &[0x54, 0x52, 0x44, 0x4D, 3, 0, 0, 0]);
    assert_eq!(rotate.len(), 104);
    let transcript = dot_unlock_transcript(&[9u8; 48]);
    assert_eq!(&transcript[..4], &[0x4D, 0x44, 0x55, 0x4C]);
    assert_eq!(transcript.len(), 52);
    let disable = dot_disable_payload(&lak);
    assert_eq!(&disable[..4], &[0x53, 0x44, 0x44, 0x4D]);
    assert_eq!(disable.len(), 52);
}

fn config() -> ValidationConfig {
    ValidationConfig {
        fuse_suite: false,
        attestation_nonce_valid: true,
        debug_unlock_enabled: false,
        has_debug_unlock_signer: false,
        negative_authorization_tests: false,
        policy_rejection_tests: false,
        provision_vendor_pk_hash: false,
        provision_owner_pk_hash: false,
        increase_caliptra_min_svn: false,
        fe_prog: false,
        revoke_vendor_pub_key: false,
        revoke_vendor_pk_hash: false,
        dot: false,
    }
}

#[test]
fn validation_plan_follows_the_configuration() {
    assert_eq!(
        plan_validations(&config()),
        vec![Validation::ExportAttestedCsr, Validation::GetAttestation]
    );
    let mut cfg = config();
    cfg.fuse_suite = true;
    cfg.dot = true;
    assert_eq!(plan_validations(&cfg), vec![Validation::FuseSuite]);
    let mut cfg = config();
    cfg.attestation_nonce_valid = false;
    cfg.debug_unlock_enabled = true;
    cfg.fe_prog = true;
    cfg.dot = true;
    assert_eq!(
        plan_validations(&cfg),
        vec![
            Validation::ExportAttestedCsr,
            Validation::GetAttestationConfigInvalid,
            Validation::ProdDebugUnlockSkipped,
            Validation::FeProg,
            Validation::Dot
        ]
    );
}

#[test]
fn fuse_suites_are_selected_by_name() {
    assert_eq!(fuse_suite("dot"), FuseSuite::Dot);
    assert_eq!(fuse_suite("increase-min-svn"), FuseSuite::IncreaseMinSvn);
    assert_eq!(fuse_suite("nope"), FuseSuite::Unknown);
    assert_eq!(fuse_suite_start("dot", false), SuiteStart::NoAuthorizer);
    assert_eq!(
        fuse_suite_start("fuse-lock-partition", true),
        SuiteStart::Run(FuseSuite::FuseLockPartition)
    );
    let steps = suite_steps(FuseSuite::IncreaseMinSvn);
    assert_eq!(steps.len(), 7);
    assert_eq!(steps[2].name, "MCMS rejects SVN above encoding bound");
    assert_eq!(
        steps[2].command,
        FuseCommand::IncreaseCaliptraMinSvn { flags: 0, svn: 129 }
    );
    assert_eq!(
        steps[2].expect,
        Expectation::Completion(CompletionCode::InvalidParameter)
    );
    assert_eq!(steps[4].expect, Expectation::Success);
    assert_eq!(suite_steps(FuseSuite::RevokeVendorPubKey).len(), 8);
    assert!(suite_steps(FuseSuite::Dot).is_empty());
}

#[test]
fn fuse_commands_authorize_exact_payloads() {
    let (id, payload) = FuseCommand::ProvisionVendorPkHash { slot: 1, hash_fill: 0xA5 }
        .authorization()
        .unwrap();
    assert_eq!(id, 0x5056_504B);
    assert_eq!(payload.len(), 52);
    assert_eq!(&payload[..4], &[1, 0, 0, 0]);
    assert!(payload[4..].iter().all(|b| *b == 0xA5));
    let (id, payload) = FuseCommand::OcpLockRotateHek { slot: 1 }.authorization().unwrap();
    assert_eq!(id, 0x13);
    assert_eq!(payload, vec![0x48, 0x52, 0x4C, 0x4F, 1, 0, 0, 0]);
    assert!(FuseCommand::NativeOcpLockSetPermaHek.authorization().is_none());
    let denied = Expectation::Completion(CompletionCode::AccessDenied);
    assert!(step_passes(Expectation::Success, CommandOutcome::Accepted));
    assert!(!step_passes(Expectation::Success, CommandOutcome::Failed));
    assert!(!step_passes(denied, CommandOutcome::Refused(CompletionCode::InvalidParameter)));
    assert!(step_passes(denied, CommandOutcome::Refused(CompletionCode::AccessDenied)));
    assert!(!step_passes(denied, CommandOutcome::Accepted));
    assert!(!step_passes(
        Expectation::Completion(CompletionCode::Other),
        CommandOutcome::Refused(CompletionCode::Other)
    ));
}

#[test]
fn negative_authorization_probes_pass_only_when_denied() {
    assert_eq!(
        negative_auth_start(false),
        Err((NegAuthCheck::Group, ValidationStatus::Skip))
    );
    assert_eq!(negative_auth_start(true), Ok(NegAuthStage::Challenge));
    assert_eq!(
        negative_auth_step(NegAuthStage::PublicKeys, NegAuthEvent::PrepareFailed),
        (NegAuthStage::Done, Some((NegAuthCheck::PublicKeys, ValidationStatus::Fail)))
    );
    let denied = NegAuthEvent::Probed(CommandOutcome::Refused(CompletionCode::AccessDenied));
    assert_eq!(
        negative_auth_step(NegAuthStage::BadSignature, denied),
        (
            NegAuthStage::ReusedChallenge,
            Some((NegAuthCheck::BadSignature, ValidationStatus::Pass))
        )
    );
    assert_eq!(
        negative_auth_step(
            NegAuthStage::TamperedMldsaSignature,
            NegAuthEvent::Probed(CommandOutcome::Accepted)
        ),
        (
            NegAuthStage::Done,
            Some((NegAuthCheck::TamperedMldsaSignature, ValidationStatus::Fail))
        )
    );
    assert_eq!(
        NegAuthCheck::UnanchoredPublicKey.name(),
        "AuthorizedCommand rejects unanchored public key"
    );
}

#[test]
fn mailbox_request_kinds_map_to_command_codes() {
    assert_eq!(McuMailboxReqKind::FuseRead.cmd_code().0, 0x4946_5052);
    assert_eq!(McuMailboxReqKind::DotLock.cmd_code().0, 0x11);
    assert_eq!(McuMailboxReqKind::GetDotBackupBlob.cmd_code().0, 0x11);
    assert_eq!(McuMailboxReqKind::OcpLockRotateHek.cmd_code().0, 0x13);
    assert_eq!(McuMailboxReqKind::GetAttestation.cmd_code().0, 0x4D47_4154);
}

#[test]
fn mailbox_wire_lengths() {
    assert_eq!(request_wire_len(McuMailboxReqKind::FuseRead, 40, None), Ok(40));
    assert_eq!(request_wire_len(McuMailboxReqKind::ShaInit, 40, Some(12)), Ok(12));
    assert_eq!(
        request_wire_len(McuMailboxReqKind::ShaInit, 40, None),
        Err(McuMboxError::MCU_MBOX_REQUEST_DATA_LEN_TOO_LARGE())
    );
    assert_eq!(response_wire_len(McuMailboxRespKind::DeviceCaps, 44, 12, 999), Ok(44));
    assert_eq!(response_wire_len(McuMailboxRespKind::GetLog, 100, 12, 8), Ok(20));
    assert_eq!(
        response_wire_len(McuMailboxRespKind::GetLog, 100, 12, 89),
        Err(McuMboxError::MCU_MBOX_RESPONSE_DATA_LEN_TOO_LARGE())
    );
    assert!(McuMailboxRespKind::FuseRead.is_variable_size());
    assert!(!McuMailboxReqKind::FuseRead.is_variable_size());
}

#[test]
fn runtime_features_plan() {
    assert_eq!(
        runtime_feature_plan(true, None),
        Err(BuildPlanError::NoRuntimeFeatures)
    );
    assert_eq!(
        runtime_feature_plan(true, Some("")),
        Err(BuildPlanError::NoRuntimeFeatures)
    );
    assert_eq!(
        runtime_feature_plan(true, Some("a,b")),
        Ok((vec![], vec!["a", "b"]))
    );
    assert_eq!(
        runtime_feature_plan(false, Some("a,,b")),
        Ok((vec!["a", "", "b"], vec![]))
    );
    assert_eq!(runtime_feature_plan(false, None), Ok((vec![], vec![])));
    assert_eq!(platform_of(None), Ok(Platform::Emulator));
    assert_eq!(platform_of(Some("fpga")), Ok(Platform::Fpga));
    assert_eq!(platform_of(Some("asic")), Err(BuildPlanError::UnknownPlatform));
}

#[test]
fn unknown_fuse_suite_fails_before_any_request() {
    assert_eq!(fuse_suite_start("nope", true), SuiteStart::UnknownSuite);
    assert_eq!(fuse_suite_start("nope", false), SuiteStart::NoAuthorizer);
    assert_eq!(UNKNOWN_SUITE_CHECK_NAME, "Authorized fuse suite");
    assert_eq!(SuiteStart::UnknownSuite.early_result(), Some(ValidationStatus::Fail));
    assert_eq!(SuiteStart::NoAuthorizer.early_result(), Some(ValidationStatus::Fail));
    assert_eq!(SuiteStart::Run(FuseSuite::Dot).early_result(), None);
}

#[test]
fn negative_auth_probes_send_what_each_check_names() {
    assert_eq!(probe(NegAuthStage::Challenge), None);
    assert_eq!(probe(NegAuthStage::Done), None);
    let bad = probe(NegAuthStage::BadSignature).unwrap();
    assert_eq!(bad.signed_cmd_id, None);
    let tampered = probe(NegAuthStage::TamperedPayload).unwrap();
    assert_eq!(tampered.signed_partition, 0);
    assert_eq!(tampered.submitted_partition, 1);
    assert_eq!(tampered.mutation, Mutation::Unchanged);
    let ecc = probe(NegAuthStage::TamperedEccSignature).unwrap();
    assert_eq!(ecc.mutation, Mutation::FlipEccSignatureR);
    assert_eq!(ecc.submitted_partition, 0);
    let reused: NegAuthProbe = probe(NegAuthStage::ReusedChallenge).unwrap();
    assert!(reused.reuses_first_challenge);
    assert_eq!(signed_payload(1), vec![1u8, 0, 0, 0]);
    assert_eq!(signed_payload(0x0102_0304), vec![4u8, 3, 2, 1]);
    let mut sig = [0x80u8, 0x11, 0x22];
    flip_first_bit(&mut sig);
    assert_eq!(sig, [0x81u8, 0x11, 0x22]);
    flip_first_bit(&mut sig);
    assert_eq!(sig, [0x80u8, 0x11, 0x22]);
}

fn att(check: AttestationCheck, status: ValidationStatus, detail: AttestationDetail) -> Option<AttestationResult> {
    Some(AttestationResult { check, status, detail })
}

#[test]
fn attestation_runs_query_formats_and_unadvertised_probe() {
    assert_eq!(attestation_start(true), Ok(AttestationStage::Query));
    assert_eq!(
        attestation_start(false),
        Err(AttestationResult {
            check: AttestationCheck::Query,
            status: ValidationStatus::Fail,
            detail: AttestationDetail::UnknownAlgorithm,
        })
    );
    let (stage, r) = attestation_step(
        AttestationStage::Query,
        AttestationEvent::Formats { bitmap: 0b101, advertised: 2, unadvertised: true },
    );
    assert_eq!(r, att(AttestationCheck::Query, ValidationStatus::Pass, AttestationDetail::Bitmap(0b101)));
    assert_eq!(stage, AttestationStage::Evidence { index: 0, count: 2, unadvertised: true });
    let (stage, r) = attestation_step(stage, AttestationEvent::Evidence { len: 512 });
    assert_eq!(r, att(AttestationCheck::Evidence(0), ValidationStatus::Pass, AttestationDetail::EvidenceBytes(512)));
    assert_eq!(stage, AttestationStage::Evidence { index: 1, count: 2, unadvertised: true });
    let (stage, r) = attestation_step(stage, AttestationEvent::Failed { not_supported: true });
    assert_eq!(r, att(AttestationCheck::Evidence(1), ValidationStatus::Skip, AttestationDetail::PairNotSupported));
    assert_eq!(stage, AttestationStage::Unadvertised);
    let (stage, r) = attestation_step(stage, AttestationEvent::Failed { not_supported: false });
    assert_eq!(r, att(AttestationCheck::Unadvertised, ValidationStatus::Pass, AttestationDetail::Rejected));
    assert_eq!(stage, AttestationStage::Done);
    assert_eq!(attestation_step(AttestationStage::Done, AttestationEvent::Malformed), (AttestationStage::Done, None));
}

#[test]
fn attestation_failures_end_or_mark_the_check() {
    assert_eq!(
        attestation_step(
            AttestationStage::Query,
            AttestationEvent::Formats { bitmap: 0, advertised: 0, unadvertised: true }
        ),
        (AttestationStage::Done, att(AttestationCheck::Query, ValidationStatus::Fail, AttestationDetail::NoFormats))
    );
    assert_eq!(
        attestation_step(AttestationStage::Query, AttestationEvent::Failed { not_supported: true }),
        (AttestationStage::Done, att(AttestationCheck::Query, ValidationStatus::Skip, AttestationDetail::Error))
    );
    assert_eq!(
        attestation_step(AttestationStage::Query, AttestationEvent::Malformed),
        (AttestationStage::Done, att(AttestationCheck::Query, ValidationStatus::Fail, AttestationDetail::Error))
    );
    assert_eq!(
        attestation_step(
            AttestationStage::Query,
            AttestationEvent::Formats { bitmap: 0x8000_0000, advertised: 0, unadvertised: false }
        ),
        (AttestationStage::Done, att(AttestationCheck::Query, ValidationStatus::Pass, AttestationDetail::Bitmap(0x8000_0000)))
    );
    assert_eq!(
        attestation_step(
            AttestationStage::Evidence { index: 0, count: 1, unadvertised: false },
            AttestationEvent::Malformed
        ),
        (AttestationStage::Done, att(AttestationCheck::Evidence(0), ValidationStatus::Fail, AttestationDetail::Error))
    );
    assert_eq!(
        attestation_step(AttestationStage::Unadvertised, AttestationEvent::Evidence { len: 4 }),
        (
            AttestationStage::Done,
            att(AttestationCheck::Unadvertised, ValidationStatus::Fail, AttestationDetail::AnsweredUnadvertised)
        )
    );
}

#[test]
fn not_supported_is_found_anywhere_in_an_error() {
    assert!(mentions_not_supported(b"NotSupported"));
    assert!(mentions_not_supported(b"device error: NotSupported (0x3)"));
    assert!(!mentions_not_supported(b"Not Supported"));
    assert!(!mentions_not_supported(b"NotSupporte"));
    assert!(!mentions_not_supported(b""));
    assert!(!mentions_not_supported(b"notsupported"));
}

#[test]
fn dot_results_carry_their_details() {
    assert_eq!(
        dot_detail(DotStage::Status, DotEvent::Status { enabled: 1, locked: 0, burned: 3 }),
        Some(DotDetail::Unlocked { burned: 3 })
    );
    assert_eq!(
        dot_detail(DotStage::Status, DotEvent::Status { enabled: 1, locked: 1, burned: 3 }),
        Some(DotDetail::UnexpectedState { enabled: 1, locked: 1, burned: 3 })
    );
    assert_eq!(dot_detail(DotStage::Keys, DotEvent::Succeeded), None);
    assert_eq!(dot_detail(DotStage::Keys, DotEvent::Failed), Some(DotDetail::KeysFailed));
    assert_eq!(
        dot_detail(DotStage::Lock, DotEvent::Transition { reset_required: 1 }),
        Some(DotDetail::TransitionCommitted)
    );
    assert_eq!(
        dot_detail(DotStage::Lock, DotEvent::Transition { reset_required: 0 }),
        Some(DotDetail::UnexpectedReset(0))
    );
    assert_eq!(dot_detail(DotStage::Lock, DotEvent::NotAuthorized), Some(DotDetail::AuthorizationFailed));
    assert_eq!(dot_detail(DotStage::Rotate, DotEvent::NotAuthorized), Some(DotDetail::Error));
    assert_eq!(
        dot_detail(DotStage::Rotate, DotEvent::Transition { reset_required: 1 }),
        Some(DotDetail::EpochRotated)
    );
    assert_eq!(dot_detail(DotStage::BackupBlob, DotEvent::Blob { nonzero: false }), Some(DotDetail::EmptyBlob));
    assert_eq!(dot_detail(DotStage::BackupBlob, DotEvent::Blob { nonzero: true }), Some(DotDetail::BlobReturned));
    assert_eq!(dot_detail(DotStage::UnlockChallenge, DotEvent::Succeeded), Some(DotDetail::ChallengeReceived));
    assert_eq!(dot_detail(DotStage::SignUnlock, DotEvent::Failed), Some(DotDetail::SigningFailed));
    assert_eq!(dot_detail(DotStage::Disable, DotEvent::NotAuthorized), Some(DotDetail::AuthorizationFailed));
    assert_eq!(dot_detail(DotStage::Done, DotEvent::Failed), None);
    assert_eq!(
        dot_step(DotStage::Lock, DotEvent::NotAuthorized),
        (DotStage::Done, Some((DotCheck::Lock, ValidationStatus::Fail)))
    );
}

#[test]
fn step_and_probe_details_follow_the_outcome() {
    let denied = Expectation::Completion(CompletionCode::AccessDenied);
    assert_eq!(response_detail(Expectation::Success, CommandOutcome::Accepted), ResponseDetail::Accepted);
    assert_eq!(response_detail(Expectation::Success, CommandOutcome::NotAuthorized), ResponseDetail::Error);
    assert_eq!(
        response_detail(denied, CommandOutcome::Refused(CompletionCode::AccessDenied)),
        ResponseDetail::ExpectedCode
    );
    assert_eq!(
        response_detail(denied, CommandOutcome::Refused(CompletionCode::Other)),
        ResponseDetail::WrongCode
    );
    assert_eq!(response_detail(denied, CommandOutcome::Accepted), ResponseDetail::UnexpectedlyAccepted);
    assert_eq!(response_detail(denied, CommandOutcome::NotAuthorized), ResponseDetail::SetupFailed);
    assert_eq!(response_detail(denied, CommandOutcome::Failed), ResponseDetail::NonDeviceFailure);
    assert_eq!(negative_auth_detail(NegAuthStage::Challenge, NegAuthEvent::Prepared), None);
    assert_eq!(
        negative_auth_detail(NegAuthStage::Challenge, NegAuthEvent::PrepareFailed),
        Some(ResponseDetail::Error)
    );
    assert_eq!(
        negative_auth_detail(
            NegAuthStage::TamperedPayload,
            NegAuthEvent::Probed(CommandOutcome::Refused(CompletionCode::AccessDenied))
        ),
        Some(ResponseDetail::ExpectedCode)
    );
    assert_eq!(
        negative_auth_detail(NegAuthStage::TamperedPayload, NegAuthEvent::Probed(CommandOutcome::NotAuthorized)),
        Some(ResponseDetail::Error)
    );
    assert_eq!(
        negative_auth_detail(NegAuthStage::BadSignature, NegAuthEvent::Probed(CommandOutcome::Failed)),
        Some(ResponseDetail::NonDeviceFailure)
    );
    assert_eq!(negative_auth_detail(NegAuthStage::Done, NegAuthEvent::Prepared), None);
}

#[test]
fn debug_unlock_and_fe_prog_sequences() {
    assert_eq!(unlock_step(UnlockStage::Request, true, true), (UnlockStage::Sign, None));
    assert_eq!(
        unlock_step(UnlockStage::Request, true, false),
        (UnlockStage::Done, Some((ValidationStatus::Fail, UnlockDetail::NoSigner)))
    );
    assert_eq!(
        unlock_step(UnlockStage::Request, false, true),
        (UnlockStage::Done, Some((ValidationStatus::Fail, UnlockDetail::RequestFailed)))
    );
    assert_eq!(unlock_step(UnlockStage::Sign, true, true), (UnlockStage::Token, None));
    assert_eq!(
        unlock_step(UnlockStage::Sign, false, true),
        (UnlockStage::Done, Some((ValidationStatus::Fail, UnlockDetail::SigningFailed)))
    );
    assert_eq!(
        unlock_step(UnlockStage::Token, true, true),
        (UnlockStage::Done, Some((ValidationStatus::Pass, UnlockDetail::TokenAccepted)))
    );
    assert_eq!(
        unlock_step(UnlockStage::Token, false, true),
        (UnlockStage::Done, Some((ValidationStatus::Fail, UnlockDetail::TokenRejected)))
    );
    assert_eq!(
        fe_prog_start(false),
        Err((ValidationStatus::Skip, FeProgDetail::NoAuthorizer))
    );
    assert_eq!(fe_prog_start(true), Ok(FeProgStage::Challenge));
    assert_eq!(fe_prog_step(FeProgStage::Challenge, true), (FeProgStage::Authorize, None));
    assert_eq!(
        fe_prog_step(FeProgStage::Authorize, false),
        (FeProgStage::Done, Some((ValidationStatus::Fail, FeProgDetail::AuthorizationFailed)))
    );
    assert_eq!(
        fe_prog_step(FeProgStage::PublicKeys, false),
        (FeProgStage::Done, Some((ValidationStatus::Fail, FeProgDetail::PublicKeysFailed)))
    );
    assert_eq!(
        fe_prog_step(FeProgStage::Program, true),
        (FeProgStage::Done, Some((ValidationStatus::Pass, FeProgDetail::Programmed)))
    );
    assert_eq!(
        fe_prog_step(FeProgStage::Program, false),
        (FeProgStage::Done, Some((ValidationStatus::Fail, FeProgDetail::Error)))
    );
    assert_eq!(fe_prog_step(FeProgStage::Done, true), (FeProgStage::Done, None));
}

#[test]
fn provisioned_hashes_are_checked_before_any_request() {
    let good = "A5".repeat(48);
    assert_eq!(parse_pk_hash(&good), Ok(vec![0xA5u8; 48]));
    assert_eq!(parse_pk_hash("a5a5"), Err(PkHashError::WrongLength(2)));
    assert_eq!(parse_pk_hash("zz"), Err(PkHashError::InvalidHex));
    assert_eq!(parse_pk_hash("abc"), Err(PkHashError::InvalidHex));
    let payload = vendor_pk_hash_payload(1, &[0xA5u8; 48]);
    assert_eq!(payload.len(), 52);
    assert_eq!(&payload[..4], &[1, 0, 0, 0]);
    assert!(payload[4..].iter().all(|b| *b == 0xA5));
}

#[test]
fn attested_csr_results_follow_the_outcome() {
    assert_eq!(csr_result(CsrOutcome::Valid(612)), (ValidationStatus::Pass, CsrDetail::Bytes(612)));
    assert_eq!(csr_result(CsrOutcome::Empty), (ValidationStatus::Fail, CsrDetail::Empty));
    assert_eq!(csr_result(CsrOutcome::TooLarge(9000)), (ValidationStatus::Fail, CsrDetail::TooLarge(9000)));
    assert_eq!(
        csr_result(CsrOutcome::Failed { not_supported: true }),
        (ValidationStatus::Skip, CsrDetail::Error)
    );
    assert_eq!(
        csr_result(CsrOutcome::Failed { not_supported: false }),
        (ValidationStatus::Fail, CsrDetail::Error)
    );
}
