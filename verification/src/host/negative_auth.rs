//! The negative authorization tests of authorized commands: field entropy
//! programming requests whose authorization is wrong in one way each, which
//! the device must all refuse with `AccessDenied`.
use crate::host::fuse::{MC_FE_PROG_CANONICAL_CMD_ID, MC_PROVISION_VENDOR_PK_HASH_CANONICAL_CMD_ID};
use crate::host::fuse_suite::{spec_response_detail, response_detail, CommandOutcome, CompletionCode, Expectation, ResponseDetail};
use crate::wire::{le4, push_u32};
use crate::host::validator::ValidationStatus;
use vstd::prelude::*;

verus! {

/// The checks of the negative authorization tests.
#[derive(Debug, Clone, Copy, PartialEq, Eq, Structural)]
pub enum NegAuthCheck {
    /// The whole group (reported when it cannot run).
    Group,
    BadSignature,
    PublicKeys,
    ReusedChallenge,
    WrongCommandSignature,
    TamperedPayload,
    UnanchoredPublicKey,
    TamperedEccSignature,
    TamperedMldsaSignature,
}

/// The name of each check.
pub open spec fn neg_auth_name(c: NegAuthCheck) -> Seq<char> {
    match c {
        NegAuthCheck::Group => "AuthorizedCommand negative authorization"@,
        NegAuthCheck::BadSignature => "AuthorizedCommand bad signature"@,
        NegAuthCheck::PublicKeys => "AuthorizedCommand public keys"@,
        NegAuthCheck::ReusedChallenge => "AuthorizedCommand reused challenge"@,
        NegAuthCheck::WrongCommandSignature => "AuthorizedCommand wrong-command signature"@,
        NegAuthCheck::TamperedPayload => "AuthorizedCommand rejects tampered payload"@,
        NegAuthCheck::UnanchoredPublicKey => "AuthorizedCommand rejects unanchored public key"@,
        NegAuthCheck::TamperedEccSignature => "AuthorizedCommand rejects tampered ECC signature"@,
        NegAuthCheck::TamperedMldsaSignature => "AuthorizedCommand rejects tampered ML-DSA signature"@,
    }
}

impl NegAuthCheck {
    /// The name of the check in the results.
    pub fn name(self) -> (r: &'static str)
        ensures
            r@ == neg_auth_name(self),
    {
        match self {
            NegAuthCheck::Group => "AuthorizedCommand negative authorization",
            NegAuthCheck::BadSignature => "AuthorizedCommand bad signature",
            NegAuthCheck::PublicKeys => "AuthorizedCommand public keys",
            NegAuthCheck::ReusedChallenge => "AuthorizedCommand reused challenge",
            NegAuthCheck::WrongCommandSignature => "AuthorizedCommand wrong-command signature",
            NegAuthCheck::TamperedPayload => "AuthorizedCommand rejects tampered payload",
            NegAuthCheck::UnanchoredPublicKey => "AuthorizedCommand rejects unanchored public key",
            NegAuthCheck::TamperedEccSignature => "AuthorizedCommand rejects tampered ECC signature",
            NegAuthCheck::TamperedMldsaSignature => "AuthorizedCommand rejects tampered ML-DSA signature",
        }
    }
}

/// The next call of the tests.
#[derive(Debug, Clone, Copy, PartialEq, Eq, Structural)]
pub enum NegAuthStage {
    /// Ask for an authorization challenge.
    Challenge,
    /// Have the authorizer sign FE_PROG of partition 0 for it.
    Authorize,
    /// Ask the authorizer for its public keys.
    PublicKeys,
    /// Send FE_PROG with an all-zero signature.
    BadSignature,
    /// Send FE_PROG again with the valid signature and the used challenge.
    ReusedChallenge,
    /// Have the authorizer sign PROVISION_VENDOR_PK_HASH.
    WrongCommandAuthorize,
    /// Send FE_PROG with that signature.
    WrongCommand,
    /// Authorize FE_PROG of partition 0 and send it for partition 1.
    TamperedPayload,
    /// Authorize FE_PROG, flip a bit of the ECC public key, send it.
    UnanchoredPublicKey,
    /// Authorize FE_PROG, flip a bit of the ECC signature, send it.
    TamperedEccSignature,
    /// Authorize FE_PROG, flip a bit of the ML-DSA signature, send it.
    TamperedMldsaSignature,
    Done,
}

/// What the call of the current stage gave.
#[derive(Debug, Clone, Copy, PartialEq, Eq, Structural)]
pub enum NegAuthEvent {
    /// A preparing call (challenge, signing, keys) succeeded.
    Prepared,
    /// A preparing call failed.
    PrepareFailed,
    /// A probe's request ended (`NotAuthorized` when its own authorization
    /// could not be made).
    Probed(CommandOutcome),
}

/// A probe passes exactly when the device refused it with `AccessDenied`.
pub open spec fn denied(e: NegAuthEvent) -> bool {
    e == NegAuthEvent::Probed(CommandOutcome::Refused(CompletionCode::AccessDenied))
}

/// The status of a probe.
pub open spec fn probe_status(e: NegAuthEvent) -> ValidationStatus {
    if denied(e) {
        ValidationStatus::Pass
    } else {
        ValidationStatus::Fail
    }
}

/// The next stage and the result to record: a failed preparation ends the
/// tests with a failed check; every probe records its check and the tests go
/// on to the next probe.
pub open spec fn spec_neg_auth_step(stage: NegAuthStage, event: NegAuthEvent) -> (NegAuthStage, Option<(NegAuthCheck, ValidationStatus)>) {
    let ok = event == NegAuthEvent::Prepared;
    match stage {
        NegAuthStage::Challenge => if ok {
            (NegAuthStage::Authorize, None)
        } else {
            (NegAuthStage::Done, Some((NegAuthCheck::BadSignature, ValidationStatus::Fail)))
        },
        NegAuthStage::Authorize => if ok {
            (NegAuthStage::PublicKeys, None)
        } else {
            (NegAuthStage::Done, Some((NegAuthCheck::BadSignature, ValidationStatus::Fail)))
        },
        NegAuthStage::PublicKeys => if ok {
            (NegAuthStage::BadSignature, None)
        } else {
            (NegAuthStage::Done, Some((NegAuthCheck::PublicKeys, ValidationStatus::Fail)))
        },
        NegAuthStage::BadSignature => (
            NegAuthStage::ReusedChallenge,
            Some((NegAuthCheck::BadSignature, probe_status(event))),
        ),
        NegAuthStage::ReusedChallenge => (
            NegAuthStage::WrongCommandAuthorize,
            Some((NegAuthCheck::ReusedChallenge, probe_status(event))),
        ),
        NegAuthStage::WrongCommandAuthorize => if ok {
            (NegAuthStage::WrongCommand, None)
        } else {
            (NegAuthStage::Done, Some((NegAuthCheck::WrongCommandSignature, ValidationStatus::Fail)))
        },
        NegAuthStage::WrongCommand => (
            NegAuthStage::TamperedPayload,
            Some((NegAuthCheck::WrongCommandSignature, probe_status(event))),
        ),
        NegAuthStage::TamperedPayload => (
            NegAuthStage::UnanchoredPublicKey,
            Some((NegAuthCheck::TamperedPayload, probe_status(event))),
        ),
        NegAuthStage::UnanchoredPublicKey => (
            NegAuthStage::TamperedEccSignature,
            Some((NegAuthCheck::UnanchoredPublicKey, probe_status(event))),
        ),
        NegAuthStage::TamperedEccSignature => (
            NegAuthStage::TamperedMldsaSignature,
            Some((NegAuthCheck::TamperedEccSignature, probe_status(event))),
        ),
        NegAuthStage::TamperedMldsaSignature => (
            NegAuthStage::Done,
            Some((NegAuthCheck::TamperedMldsaSignature, probe_status(event))),
        ),
        NegAuthStage::Done => (NegAuthStage::Done, None),
    }
}

fn status_of(event: NegAuthEvent) -> (r: ValidationStatus)
    ensures
        r == probe_status(event),
{
    match event {
        NegAuthEvent::Probed(CommandOutcome::Refused(CompletionCode::AccessDenied)) => ValidationStatus::Pass,
        _ => ValidationStatus::Fail,
    }
}

/// The first stage, or the skipped group when no authorizer was given.
pub fn negative_auth_start(has_authorizer: bool) -> (r: Result<NegAuthStage, (NegAuthCheck, ValidationStatus)>)
    ensures
        r == (if has_authorizer {
            Ok::<NegAuthStage, (NegAuthCheck, ValidationStatus)>(NegAuthStage::Challenge)
        } else {
            Err((NegAuthCheck::Group, ValidationStatus::Skip))
        }),
{
    if has_authorizer {
        Ok(NegAuthStage::Challenge)
    } else {
        Err((NegAuthCheck::Group, ValidationStatus::Skip))
    }
}

/// One step of the tests: the next stage and the result to record.
pub fn negative_auth_step(stage: NegAuthStage, event: NegAuthEvent) -> (r: (NegAuthStage, Option<(NegAuthCheck, ValidationStatus)>))
    ensures
        r == spec_neg_auth_step(stage, event),
{
    let ok = match event {
        NegAuthEvent::Prepared => true,
        _ => false,
    };
    let fail = ValidationStatus::Fail;
    match stage {
        NegAuthStage::Challenge => if ok {
            (NegAuthStage::Authorize, None)
        } else {
            (NegAuthStage::Done, Some((NegAuthCheck::BadSignature, fail)))
        },
        NegAuthStage::Authorize => if ok {
            (NegAuthStage::PublicKeys, None)
        } else {
            (NegAuthStage::Done, Some((NegAuthCheck::BadSignature, fail)))
        },
        NegAuthStage::PublicKeys => if ok {
            (NegAuthStage::BadSignature, None)
        } else {
            (NegAuthStage::Done, Some((NegAuthCheck::PublicKeys, fail)))
        },
        NegAuthStage::BadSignature => (
            NegAuthStage::ReusedChallenge,
            Some((NegAuthCheck::BadSignature, status_of(event))),
        ),
        NegAuthStage::ReusedChallenge => (
            NegAuthStage::WrongCommandAuthorize,
            Some((NegAuthCheck::ReusedChallenge, status_of(event))),
        ),
        NegAuthStage::WrongCommandAuthorize => if ok {
            (NegAuthStage::WrongCommand, None)
        } else {
            (NegAuthStage::Done, Some((NegAuthCheck::WrongCommandSignature, fail)))
        },
        NegAuthStage::WrongCommand => (
            NegAuthStage::TamperedPayload,
            Some((NegAuthCheck::WrongCommandSignature, status_of(event))),
        ),
        NegAuthStage::TamperedPayload => (
            NegAuthStage::UnanchoredPublicKey,
            Some((NegAuthCheck::TamperedPayload, status_of(event))),
        ),
        NegAuthStage::UnanchoredPublicKey => (
            NegAuthStage::TamperedEccSignature,
            Some((NegAuthCheck::UnanchoredPublicKey, status_of(event))),
        ),
        NegAuthStage::TamperedEccSignature => (
            NegAuthStage::TamperedMldsaSignature,
            Some((NegAuthCheck::TamperedEccSignature, status_of(event))),
        ),
        NegAuthStage::TamperedMldsaSignature => (
            NegAuthStage::Done,
            Some((NegAuthCheck::TamperedMldsaSignature, status_of(event))),
        ),
        NegAuthStage::Done => (NegAuthStage::Done, None),
    }
}

/// A probe passes only when the device denies it: an accepted tampered
/// request always fails its check.
pub proof fn lemma_accepted_probe_fails(stage: NegAuthStage)
    ensures
        spec_neg_auth_step(stage, NegAuthEvent::Probed(CommandOutcome::Accepted)).1 matches Some((c, st)) ==> st
            == ValidationStatus::Fail,
{
}

/// What a probe changes in a valid authorization before sending it.
#[derive(Debug, Clone, Copy, PartialEq, Eq, Structural)]
pub enum Mutation {
    /// Nothing.
    Unchanged,
    /// The lowest bit of the first byte of the ECC public key x coordinate.
    FlipEccPubKeyX,
    /// The lowest bit of the first byte of the ECC signature r.
    FlipEccSignatureR,
    /// The lowest bit of the first byte of the ML-DSA signature.
    FlipMldsaSignature,
}

/// The FE_PROG request a probe sends.
#[derive(Debug, Clone, Copy, PartialEq, Eq, Structural)]
pub struct NegAuthProbe {
    /// The command identifier whose payload the authorizer signs, or `None`
    /// for an all-zero signature.
    pub signed_cmd_id: Option<u32>,
    /// The partition in the signed payload.
    pub signed_partition: u32,
    /// The probe uses the challenge of the first authorization again
    /// instead of a fresh one.
    pub reuses_first_challenge: bool,
    /// The partition in the FE_PROG request sent.
    pub submitted_partition: u32,
    /// What is changed in the authorization before sending.
    pub mutation: Mutation,
}

/// The request each probe stage sends; `None` for the other stages.
pub open spec fn spec_probe(stage: NegAuthStage) -> Option<NegAuthProbe> {
    match stage {
        NegAuthStage::BadSignature => Some(NegAuthProbe {
            signed_cmd_id: None,
            signed_partition: 0,
            reuses_first_challenge: true,
            submitted_partition: 0,
            mutation: Mutation::Unchanged,
        }),
        NegAuthStage::ReusedChallenge => Some(NegAuthProbe {
            signed_cmd_id: Some(MC_FE_PROG_CANONICAL_CMD_ID),
            signed_partition: 0,
            reuses_first_challenge: true,
            submitted_partition: 0,
            mutation: Mutation::Unchanged,
        }),
        NegAuthStage::WrongCommand => Some(NegAuthProbe {
            signed_cmd_id: Some(MC_PROVISION_VENDOR_PK_HASH_CANONICAL_CMD_ID),
            signed_partition: 0,
            reuses_first_challenge: false,
            submitted_partition: 0,
            mutation: Mutation::Unchanged,
        }),
        NegAuthStage::TamperedPayload => Some(NegAuthProbe {
            signed_cmd_id: Some(MC_FE_PROG_CANONICAL_CMD_ID),
            signed_partition: 0,
            reuses_first_challenge: false,
            submitted_partition: 1,
            mutation: Mutation::Unchanged,
        }),
        NegAuthStage::UnanchoredPublicKey => Some(NegAuthProbe {
            signed_cmd_id: Some(MC_FE_PROG_CANONICAL_CMD_ID),
            signed_partition: 0,
            reuses_first_challenge: false,
            submitted_partition: 0,
            mutation: Mutation::FlipEccPubKeyX,
        }),
        NegAuthStage::TamperedEccSignature => Some(NegAuthProbe {
            signed_cmd_id: Some(MC_FE_PROG_CANONICAL_CMD_ID),
            signed_partition: 0,
            reuses_first_challenge: false,
            submitted_partition: 0,
            mutation: Mutation::FlipEccSignatureR,
        }),
        NegAuthStage::TamperedMldsaSignature => Some(NegAuthProbe {
            signed_cmd_id: Some(MC_FE_PROG_CANONICAL_CMD_ID),
            signed_partition: 0,
            reuses_first_challenge: false,
            submitted_partition: 0,
            mutation: Mutation::FlipMldsaSignature,
        }),
        _ => None,
    }
}

/// The request a probe stage sends.
pub fn probe(stage: NegAuthStage) -> (r: Option<NegAuthProbe>)
    ensures
        r == spec_probe(stage),
{
    let fe = MC_FE_PROG_CANONICAL_CMD_ID;
    match stage {
        NegAuthStage::BadSignature => Some(NegAuthProbe {
            signed_cmd_id: None,
            signed_partition: 0,
            reuses_first_challenge: true,
            submitted_partition: 0,
            mutation: Mutation::Unchanged,
        }),
        NegAuthStage::ReusedChallenge => Some(NegAuthProbe {
            signed_cmd_id: Some(fe),
            signed_partition: 0,
            reuses_first_challenge: true,
            submitted_partition: 0,
            mutation: Mutation::Unchanged,
        }),
        NegAuthStage::WrongCommand => Some(NegAuthProbe {
            signed_cmd_id: Some(MC_PROVISION_VENDOR_PK_HASH_CANONICAL_CMD_ID),
            signed_partition: 0,
            reuses_first_challenge: false,
            submitted_partition: 0,
            mutation: Mutation::Unchanged,
        }),
        NegAuthStage::TamperedPayload => Some(NegAuthProbe {
            signed_cmd_id: Some(fe),
            signed_partition: 0,
            reuses_first_challenge: false,
            submitted_partition: 1,
            mutation: Mutation::Unchanged,
        }),
        NegAuthStage::UnanchoredPublicKey => Some(NegAuthProbe {
            signed_cmd_id: Some(fe),
            signed_partition: 0,
            reuses_first_challenge: false,
            submitted_partition: 0,
            mutation: Mutation::FlipEccPubKeyX,
        }),
        NegAuthStage::TamperedEccSignature => Some(NegAuthProbe {
            signed_cmd_id: Some(fe),
            signed_partition: 0,
            reuses_first_challenge: false,
            submitted_partition: 0,
            mutation: Mutation::FlipEccSignatureR,
        }),
        NegAuthStage::TamperedMldsaSignature => Some(NegAuthProbe {
            signed_cmd_id: Some(fe),
            signed_partition: 0,
            reuses_first_challenge: false,
            submitted_partition: 0,
            mutation: Mutation::FlipMldsaSignature,
        }),
        _ => None,
    }
}

/// The payload that is signed for a partition: its little-endian bytes.
pub fn signed_payload(partition: u32) -> (r: Vec<u8>)
    ensures
        r@ == le4(partition),
{
    let mut v: Vec<u8> = Vec::new();
    push_u32(&mut v, partition);
    assert(v@ =~= le4(partition));
    v
}

/// Flips the lowest bit of the first byte of a key or signature.
pub fn flip_first_bit(bytes: &mut [u8])
    requires
        old(bytes)@.len() > 0,
    ensures
        final(bytes)@ == old(bytes)@.update(0, old(bytes)@[0] ^ 1u8),
{
    let b = bytes[0];
    bytes[0] = b ^ 1u8;
}

/// Every tampered probe signs FE_PROG of partition 0 and changes exactly one
/// thing against that authorization: the partition sent, or one bit of the
/// key or of a signature.
pub proof fn lemma_tampered_probes_change_one_thing(stage: NegAuthStage)
    requires
        stage == NegAuthStage::TamperedPayload || stage == NegAuthStage::UnanchoredPublicKey
            || stage == NegAuthStage::TamperedEccSignature || stage
            == NegAuthStage::TamperedMldsaSignature,
    ensures
        spec_probe(stage) matches Some(p) && p.signed_cmd_id == Some(MC_FE_PROG_CANONICAL_CMD_ID)
            && p.signed_partition == 0 && ((p.submitted_partition != 0) != (p.mutation
            != Mutation::Unchanged)),
{
}

/// The detail of the result a step records, where it records one: the text
/// of the error for a failed preparation or a probe whose authorization
/// could not be made, and otherwise what the probe's outcome was against the
/// expected `AccessDenied`.
pub open spec fn spec_neg_auth_detail(stage: NegAuthStage, event: NegAuthEvent) -> Option<ResponseDetail> {
    if spec_neg_auth_step(stage, event).1 is None {
        None
    } else if spec_probe(stage) is None {
        Some(ResponseDetail::Error)
    } else {
        match event {
            NegAuthEvent::Probed(o) => if o == CommandOutcome::NotAuthorized {
                Some(ResponseDetail::Error)
            } else {
                Some(spec_response_detail(Expectation::Completion(CompletionCode::AccessDenied), o))
            },
            _ => Some(ResponseDetail::Error),
        }
    }
}

/// The detail of the result a step records.
pub fn negative_auth_detail(stage: NegAuthStage, event: NegAuthEvent) -> (r: Option<ResponseDetail>)
    ensures
        r == spec_neg_auth_detail(stage, event),
{
    let (_, result) = negative_auth_step(stage, event);
    if result.is_none() {
        return None;
    }
    if probe(stage).is_none() {
        return Some(ResponseDetail::Error);
    }
    match event {
        NegAuthEvent::Probed(CommandOutcome::NotAuthorized) => Some(ResponseDetail::Error),
        NegAuthEvent::Probed(o) => Some(response_detail(Expectation::Completion(CompletionCode::AccessDenied), o)),
        _ => Some(ResponseDetail::Error),
    }
}

/// A recorded probe passes exactly when its detail is the expected code.
pub proof fn lemma_neg_auth_detail_matches_status(stage: NegAuthStage, event: NegAuthEvent)
    ensures
        spec_neg_auth_step(stage, event).1 matches Some((c, st)) ==> ((st == ValidationStatus::Pass)
            <==> spec_neg_auth_detail(stage, event) == Some(ResponseDetail::ExpectedCode)),
{
    match event {
        NegAuthEvent::Probed(o) => match o {
            CommandOutcome::Refused(code) => {
                assert(code == CompletionCode::AccessDenied <==> denied(event));
            },
            _ => {},
        },
        _ => {},
    }
}

} // verus!
