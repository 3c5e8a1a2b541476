//! Two single-result validations that make a fixed sequence of calls: the
//! production debug unlock (request a challenge, sign a token, send it) and
//! field entropy programming (challenge, authorization, public keys,
//! FE_PROG). The first failing call ends the sequence with a failed result
//! that names it; the last call's success passes it.
use crate::host::validator::ValidationStatus;
use vstd::prelude::*;

verus! {

/// The next call of the debug unlock.
#[derive(Debug, Clone, Copy, PartialEq, Eq, Structural)]
pub enum UnlockStage {
    /// Request the unlock challenge.
    Request,
    /// Have the signer sign the token.
    Sign,
    /// Send the signed token.
    Token,
    Done,
}

/// What the debug unlock result says besides its status.
#[derive(Debug, Clone, Copy, PartialEq, Eq, Structural)]
pub enum UnlockDetail {
    /// The unlock request failed; its error follows.
    RequestFailed,
    /// No signer was given.
    NoSigner,
    /// The token could not be signed; the error follows.
    SigningFailed,
    /// The device accepted the token.
    TokenAccepted,
    /// The device rejected the signed token; its error follows.
    TokenRejected,
}

/// One step of the debug unlock, on whether the stage's call succeeded and
/// whether a signer was given.
pub open spec fn spec_unlock_step(stage: UnlockStage, ok: bool, has_signer: bool) -> (UnlockStage, Option<(ValidationStatus, UnlockDetail)>) {
    match stage {
        UnlockStage::Request => if !ok {
            (UnlockStage::Done, Some((ValidationStatus::Fail, UnlockDetail::RequestFailed)))
        } else if !has_signer {
            (UnlockStage::Done, Some((ValidationStatus::Fail, UnlockDetail::NoSigner)))
        } else {
            (UnlockStage::Sign, None)
        },
        UnlockStage::Sign => if ok {
            (UnlockStage::Token, None)
        } else {
            (UnlockStage::Done, Some((ValidationStatus::Fail, UnlockDetail::SigningFailed)))
        },
        UnlockStage::Token => if ok {
            (UnlockStage::Done, Some((ValidationStatus::Pass, UnlockDetail::TokenAccepted)))
        } else {
            (UnlockStage::Done, Some((ValidationStatus::Fail, UnlockDetail::TokenRejected)))
        },
        UnlockStage::Done => (UnlockStage::Done, None),
    }
}

/// One step of the debug unlock: the next stage and the result, once there
/// is one.
pub fn unlock_step(stage: UnlockStage, ok: bool, has_signer: bool) -> (r: (UnlockStage, Option<(ValidationStatus, UnlockDetail)>))
    ensures
        r == spec_unlock_step(stage, ok, has_signer),
{
    match stage {
        UnlockStage::Request => if !ok {
            (UnlockStage::Done, Some((ValidationStatus::Fail, UnlockDetail::RequestFailed)))
        } else if !has_signer {
            (UnlockStage::Done, Some((ValidationStatus::Fail, UnlockDetail::NoSigner)))
        } else {
            (UnlockStage::Sign, None)
        },
        UnlockStage::Sign => if ok {
            (UnlockStage::Token, None)
        } else {
            (UnlockStage::Done, Some((ValidationStatus::Fail, UnlockDetail::SigningFailed)))
        },
        UnlockStage::Token => if ok {
            (UnlockStage::Done, Some((ValidationStatus::Pass, UnlockDetail::TokenAccepted)))
        } else {
            (UnlockStage::Done, Some((ValidationStatus::Fail, UnlockDetail::TokenRejected)))
        },
        UnlockStage::Done => (UnlockStage::Done, None),
    }
}

/// How many calls are left at most from a stage of the debug unlock.
pub open spec fn unlock_calls_left(stage: UnlockStage) -> int {
    match stage {
        UnlockStage::Request => 3,
        UnlockStage::Sign => 2,
        UnlockStage::Token => 1,
        UnlockStage::Done => 0,
    }
}

/// The debug unlock records its one result exactly when it ends, and each
/// step leaves fewer calls; only an accepted token passes.
pub proof fn lemma_unlock_single_result(stage: UnlockStage, ok: bool, has_signer: bool)
    ensures
        stage != UnlockStage::Done ==> ((spec_unlock_step(stage, ok, has_signer).1 is Some) == (spec_unlock_step(
            stage,
            ok,
            has_signer,
        ).0 == UnlockStage::Done)),
        stage != UnlockStage::Done ==> unlock_calls_left(spec_unlock_step(stage, ok, has_signer).0) < unlock_calls_left(stage),
        spec_unlock_step(stage, ok, has_signer).1 matches Some((st, d)) ==> ((st == ValidationStatus::Pass) == (d
            == UnlockDetail::TokenAccepted)),
{
}

/// The next call of field entropy programming.
#[derive(Debug, Clone, Copy, PartialEq, Eq, Structural)]
pub enum FeProgStage {
    /// Ask for an authorization challenge.
    Challenge,
    /// Have the authorizer sign FE_PROG of the partition.
    Authorize,
    /// Ask the authorizer for its public keys.
    PublicKeys,
    /// Send FE_PROG.
    Program,
    Done,
}

/// What the field entropy programming result says besides its status.
#[derive(Debug, Clone, Copy, PartialEq, Eq, Structural)]
pub enum FeProgDetail {
    /// No authorizer was given.
    NoAuthorizer,
    /// The challenge could not be had; the error follows.
    ChallengeFailed,
    /// The authorization failed; the error follows.
    AuthorizationFailed,
    /// The public keys could not be had; the error follows.
    PublicKeysFailed,
    /// The partition is programmed.
    Programmed,
    /// The text of the device's error alone.
    Error,
}

/// The first stage, or the skipped result when no authorizer was given.
pub fn fe_prog_start(has_authorizer: bool) -> (r: Result<FeProgStage, (ValidationStatus, FeProgDetail)>)
    ensures
        r == (if has_authorizer {
            Ok::<FeProgStage, (ValidationStatus, FeProgDetail)>(FeProgStage::Challenge)
        } else {
            Err((ValidationStatus::Skip, FeProgDetail::NoAuthorizer))
        }),
{
    if has_authorizer {
        Ok(FeProgStage::Challenge)
    } else {
        Err((ValidationStatus::Skip, FeProgDetail::NoAuthorizer))
    }
}

/// One step of field entropy programming, on whether the stage's call
/// succeeded.
pub open spec fn spec_fe_prog_step(stage: FeProgStage, ok: bool) -> (FeProgStage, Option<(ValidationStatus, FeProgDetail)>) {
    let fail = ValidationStatus::Fail;
    match stage {
        FeProgStage::Challenge => if ok {
            (FeProgStage::Authorize, None)
        } else {
            (FeProgStage::Done, Some((fail, FeProgDetail::ChallengeFailed)))
        },
        FeProgStage::Authorize => if ok {
            (FeProgStage::PublicKeys, None)
        } else {
            (FeProgStage::Done, Some((fail, FeProgDetail::AuthorizationFailed)))
        },
        FeProgStage::PublicKeys => if ok {
            (FeProgStage::Program, None)
        } else {
            (FeProgStage::Done, Some((fail, FeProgDetail::PublicKeysFailed)))
        },
        FeProgStage::Program => if ok {
            (FeProgStage::Done, Some((ValidationStatus::Pass, FeProgDetail::Programmed)))
        } else {
            (FeProgStage::Done, Some((fail, FeProgDetail::Error)))
        },
        FeProgStage::Done => (FeProgStage::Done, None),
    }
}

/// One step of field entropy programming: the next stage and the result,
/// once there is one.
pub fn fe_prog_step(stage: FeProgStage, ok: bool) -> (r: (FeProgStage, Option<(ValidationStatus, FeProgDetail)>))
    ensures
        r == spec_fe_prog_step(stage, ok),
{
    let fail = ValidationStatus::Fail;
    match stage {
        FeProgStage::Challenge => if ok {
            (FeProgStage::Authorize, None)
        } else {
            (FeProgStage::Done, Some((fail, FeProgDetail::ChallengeFailed)))
        },
        FeProgStage::Authorize => if ok {
            (FeProgStage::PublicKeys, None)
        } else {
            (FeProgStage::Done, Some((fail, FeProgDetail::AuthorizationFailed)))
        },
        FeProgStage::PublicKeys => if ok {
            (FeProgStage::Program, None)
        } else {
            (FeProgStage::Done, Some((fail, FeProgDetail::PublicKeysFailed)))
        },
        FeProgStage::Program => if ok {
            (FeProgStage::Done, Some((ValidationStatus::Pass, FeProgDetail::Programmed)))
        } else {
            (FeProgStage::Done, Some((fail, FeProgDetail::Error)))
        },
        FeProgStage::Done => (FeProgStage::Done, None),
    }
}

/// How many calls are left at most from a stage of field entropy
/// programming.
pub open spec fn fe_prog_calls_left(stage: FeProgStage) -> int {
    match stage {
        FeProgStage::Challenge => 4,
        FeProgStage::Authorize => 3,
        FeProgStage::PublicKeys => 2,
        FeProgStage::Program => 1,
        FeProgStage::Done => 0,
    }
}

/// Field entropy programming records its one result exactly when it ends,
/// each step leaves fewer calls, and it passes only when FE_PROG succeeds.
pub proof fn lemma_fe_prog_single_result(stage: FeProgStage, ok: bool)
    ensures
        stage != FeProgStage::Done ==> ((spec_fe_prog_step(stage, ok).1 is Some) == (spec_fe_prog_step(stage, ok).0
            == FeProgStage::Done)),
        stage != FeProgStage::Done ==> fe_prog_calls_left(spec_fe_prog_step(stage, ok).0) < fe_prog_calls_left(stage),
        spec_fe_prog_step(stage, ok).1 matches Some((st, d)) ==> ((st == ValidationStatus::Pass) == (stage
            == FeProgStage::Program && ok)),
{
}

} // verus!
