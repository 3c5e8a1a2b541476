//! The device ownership transfer (DOT) validation sequence: the checks it
//! makes on a device, in order (status, lock, backup blob, rotate, unlock
//! challenge, unlock, disable), the payloads it authorizes, and how each
//! response decides the check and whether the sequence goes on.
use crate::host::validator::ValidationStatus;
use crate::wire::{append_bytes, be4, le4, push_u32, u32_to_be};
use vstd::prelude::*;

verus! {

/// Canonical command identifier of DOT_LOCK.
pub const MC_DOT_LOCK_CANONICAL_CMD_ID: u32 = 0x4D44_4C4B;

/// Canonical command identifier of GET_DOT_BACKUP_BLOB.
pub const MC_GET_DOT_BACKUP_BLOB_CANONICAL_CMD_ID: u32 = 0x4D44_4242;

/// Canonical command identifier of DOT_ROTATE.
pub const MC_DOT_ROTATE_CANONICAL_CMD_ID: u32 = 0x4D44_5254;

/// Canonical command identifier of DOT_UNLOCK.
pub const MC_DOT_UNLOCK_CANONICAL_CMD_ID: u32 = 0x4D44_554C;

/// Canonical command identifier of DOT_DISABLE.
pub const MC_DOT_DISABLE_CANONICAL_CMD_ID: u32 = 0x4D44_4453;

/// The minimum fuse count that the rotation asks for.
pub const DOT_ROTATE_MIN_FUSE_COUNT: u32 = 3;

/// The length of the CAK and of the LAK hash.
pub const DOT_KEY_LEN: usize = 48;

/// The checks of the sequence.
#[derive(Debug, Clone, Copy, PartialEq, Eq, Structural)]
pub enum DotCheck {
    Status,
    Lock,
    BackupBlob,
    Rotate,
    UnlockChallenge,
    Unlock,
    Disable,
}

impl DotCheck {
    /// The name of the check in the results.
    pub fn name(self) -> (r: &'static str)
        ensures
            r@ == dot_check_name(self),
    {
        match self {
            DotCheck::Status => "DotStatus",
            DotCheck::Lock => "DotLock",
            DotCheck::BackupBlob => "GetDotBackupBlob",
            DotCheck::Rotate => "DotRotate",
            DotCheck::UnlockChallenge => "DotUnlockChallenge",
            DotCheck::Unlock => "DotUnlock",
            DotCheck::Disable => "DotDisable",
        }
    }
}

/// The name of each check.
pub open spec fn dot_check_name(c: DotCheck) -> Seq<char> {
    match c {
        DotCheck::Status => "DotStatus"@,
        DotCheck::Lock => "DotLock"@,
        DotCheck::BackupBlob => "GetDotBackupBlob"@,
        DotCheck::Rotate => "DotRotate"@,
        DotCheck::UnlockChallenge => "DotUnlockChallenge"@,
        DotCheck::Unlock => "DotUnlock"@,
        DotCheck::Disable => "DotDisable"@,
    }
}

/// Where the sequence stands: the next call to make.
#[derive(Debug, Clone, Copy, PartialEq, Eq, Structural)]
pub enum DotStage {
    /// Read the DOT status.
    Status,
    /// Derive the LAK public keys (and their hash) from the signer.
    Keys,
    /// Authorize and send DOT_LOCK.
    Lock,
    /// Authorize and send GET_DOT_BACKUP_BLOB.
    BackupBlob,
    /// Authorize and send DOT_ROTATE.
    Rotate,
    /// Ask for the unlock challenge.
    UnlockChallenge,
    /// Sign the unlock transcript.
    SignUnlock,
    /// Send DOT_UNLOCK.
    Unlock,
    /// Authorize and send DOT_DISABLE.
    Disable,
    /// The sequence is over.
    Done,
}

/// What the call of the current stage gave.
#[derive(Debug, Clone, Copy, PartialEq, Eq, Structural)]
pub enum DotEvent {
    /// The call (signing, key derivation or the command) failed.
    Failed,
    /// The authorization of the command could not be made.
    NotAuthorized,
    /// The DOT status, with the number of fuses burned.
    Status { enabled: u8, locked: u8, burned: u16 },
    /// A transition command answered.
    Transition { reset_required: u32 },
    /// The backup blob came back; whether some byte of it is nonzero.
    Blob { nonzero: bool },
    /// The call succeeded with nothing to judge (keys derived, challenge
    /// received, transcript signed).
    Succeeded,
}

/// A transition answered with a required reset.
pub open spec fn committed(e: DotEvent) -> bool {
    e matches DotEvent::Transition { reset_required } && reset_required == 1
}

/// The next stage and the result to record, for an event at a stage: a
/// stage that succeeds passes its check and goes on; one that fails fails
/// its check and ends the sequence.
pub open spec fn spec_dot_step(stage: DotStage, event: DotEvent) -> (DotStage, Option<(DotCheck, ValidationStatus)>) {
    match stage {
        DotStage::Status => if event matches DotEvent::Status { enabled, locked, .. } && enabled == 1 && locked == 0 {
            (DotStage::Keys, Some((DotCheck::Status, ValidationStatus::Pass)))
        } else {
            (DotStage::Done, Some((DotCheck::Status, ValidationStatus::Fail)))
        },
        DotStage::Keys => if event == DotEvent::Succeeded {
            (DotStage::Lock, None)
        } else {
            (DotStage::Done, Some((DotCheck::Lock, ValidationStatus::Fail)))
        },
        DotStage::Lock => if committed(event) {
            (DotStage::BackupBlob, Some((DotCheck::Lock, ValidationStatus::Pass)))
        } else {
            (DotStage::Done, Some((DotCheck::Lock, ValidationStatus::Fail)))
        },
        DotStage::BackupBlob => if event == (DotEvent::Blob { nonzero: true }) {
            (DotStage::Rotate, Some((DotCheck::BackupBlob, ValidationStatus::Pass)))
        } else {
            (DotStage::Done, Some((DotCheck::BackupBlob, ValidationStatus::Fail)))
        },
        DotStage::Rotate => if committed(event) {
            (DotStage::UnlockChallenge, Some((DotCheck::Rotate, ValidationStatus::Pass)))
        } else {
            (DotStage::Done, Some((DotCheck::Rotate, ValidationStatus::Fail)))
        },
        DotStage::UnlockChallenge => if event == DotEvent::Succeeded {
            (DotStage::SignUnlock, Some((DotCheck::UnlockChallenge, ValidationStatus::Pass)))
        } else {
            (DotStage::Done, Some((DotCheck::UnlockChallenge, ValidationStatus::Fail)))
        },
        DotStage::SignUnlock => if event == DotEvent::Succeeded {
            (DotStage::Unlock, None)
        } else {
            (DotStage::Done, Some((DotCheck::Unlock, ValidationStatus::Fail)))
        },
        DotStage::Unlock => if committed(event) {
            (DotStage::Disable, Some((DotCheck::Unlock, ValidationStatus::Pass)))
        } else {
            (DotStage::Done, Some((DotCheck::Unlock, ValidationStatus::Fail)))
        },
        DotStage::Disable => if committed(event) {
            (DotStage::Done, Some((DotCheck::Disable, ValidationStatus::Pass)))
        } else {
            (DotStage::Done, Some((DotCheck::Disable, ValidationStatus::Fail)))
        },
        DotStage::Done => (DotStage::Done, None),
    }
}

fn is_committed(event: DotEvent) -> (r: bool)
    ensures
        r == committed(event),
{
    match event {
        DotEvent::Transition { reset_required } => reset_required == 1,
        _ => false,
    }
}

/// One step of the sequence: the next stage and the result to record.
pub fn dot_step(stage: DotStage, event: DotEvent) -> (r: (DotStage, Option<(DotCheck, ValidationStatus)>))
    ensures
        r == spec_dot_step(stage, event),
{
    let pass = ValidationStatus::Pass;
    let fail = ValidationStatus::Fail;
    match stage {
        DotStage::Status => match event {
            DotEvent::Status { enabled, locked, .. } if enabled == 1 && locked == 0 => (
                DotStage::Keys,
                Some((DotCheck::Status, pass)),
            ),
            _ => (DotStage::Done, Some((DotCheck::Status, fail))),
        },
        DotStage::Keys => match event {
            DotEvent::Succeeded => (DotStage::Lock, None),
            _ => (DotStage::Done, Some((DotCheck::Lock, fail))),
        },
        DotStage::Lock => if is_committed(event) {
            (DotStage::BackupBlob, Some((DotCheck::Lock, pass)))
        } else {
            (DotStage::Done, Some((DotCheck::Lock, fail)))
        },
        DotStage::BackupBlob => match event {
            DotEvent::Blob { nonzero: true } => (DotStage::Rotate, Some((DotCheck::BackupBlob, pass))),
            _ => (DotStage::Done, Some((DotCheck::BackupBlob, fail))),
        },
        DotStage::Rotate => if is_committed(event) {
            (DotStage::UnlockChallenge, Some((DotCheck::Rotate, pass)))
        } else {
            (DotStage::Done, Some((DotCheck::Rotate, fail)))
        },
        DotStage::UnlockChallenge => match event {
            DotEvent::Succeeded => (DotStage::SignUnlock, Some((DotCheck::UnlockChallenge, pass))),
            _ => (DotStage::Done, Some((DotCheck::UnlockChallenge, fail))),
        },
        DotStage::SignUnlock => match event {
            DotEvent::Succeeded => (DotStage::Unlock, None),
            _ => (DotStage::Done, Some((DotCheck::Unlock, fail))),
        },
        DotStage::Unlock => if is_committed(event) {
            (DotStage::Disable, Some((DotCheck::Unlock, pass)))
        } else {
            (DotStage::Done, Some((DotCheck::Unlock, fail)))
        },
        DotStage::Disable => if is_committed(event) {
            (DotStage::Done, Some((DotCheck::Disable, pass)))
        } else {
            (DotStage::Done, Some((DotCheck::Disable, fail)))
        },
        DotStage::Done => (DotStage::Done, None),
    }
}

/// Some byte of the blob is nonzero.
pub fn blob_nonzero(blob: &[u8]) -> (r: bool)
    ensures
        r == exists|i: int| 0 <= i < blob@.len() && blob@[i] != 0,
{
    let mut i: usize = 0;
    while i < blob.len()
        invariant
            i <= blob@.len(),
            forall|k: int| 0 <= k < i ==> blob@[k] == 0,
        decreases blob@.len() - i,
    {
        if blob[i] != 0 {
            return true;
        }
        i = i + 1;
    }
    false
}

/// Why the sequence cannot start.
#[derive(Debug, Clone, Copy, PartialEq, Eq, Structural)]
pub enum DotStartError {
    /// No command authorizer was given.
    NoAuthorizer,
    /// No native DOT signer was given.
    NoSigner,
    /// No CAK is configured.
    NoCak,
    /// The CAK is not hexadecimal text.
    InvalidCakHex,
    /// The CAK does not decode to 48 bytes; the length it has.
    InvalidCakLength(usize),
}

impl DotStartError {
    /// The check that reports the error, and how: a missing authorizer or
    /// signer skips the sequence, a bad CAK fails it.
    pub fn result(self) -> (r: (DotCheck, ValidationStatus))
        ensures
            r == match self {
                DotStartError::NoAuthorizer => (DotCheck::Lock, ValidationStatus::Skip),
                DotStartError::NoSigner => (DotCheck::UnlockChallenge, ValidationStatus::Skip),
                _ => (DotCheck::Lock, ValidationStatus::Fail),
            },
    {
        match self {
            DotStartError::NoAuthorizer => (DotCheck::Lock, ValidationStatus::Skip),
            DotStartError::NoSigner => (DotCheck::UnlockChallenge, ValidationStatus::Skip),
            _ => (DotCheck::Lock, ValidationStatus::Fail),
        }
    }
}

/// The value of a hexadecimal digit of either case.
pub open spec fn hex_nibble(c: char) -> Option<u8> {
    if '0' <= c && c <= '9' {
        Some((c as int - '0' as int) as u8)
    } else if 'a' <= c && c <= 'f' {
        Some((c as int - 'a' as int + 10) as u8)
    } else if 'A' <= c && c <= 'F' {
        Some((c as int - 'A' as int + 10) as u8)
    } else {
        None
    }
}

/// The bytes of hexadecimal text: pairs of digits, high digit first; `None`
/// for text of odd length or with a character that is not a digit.
pub open spec fn hex_decoded(s: Seq<char>) -> Option<Seq<u8>>
    decreases s.len(),
{
    if s.len() == 0 {
        Some(Seq::empty())
    } else if s.len() == 1 {
        None
    } else {
        match (hex_nibble(s[0]), hex_nibble(s[1]), hex_decoded(s.subrange(2, s.len() as int))) {
            (Some(a), Some(b), Some(rest)) => Some(seq![(a * 16 + b) as u8] + rest),
            _ => None,
        }
    }
}

/// `hex::decode(s)`: the bytes of hexadecimal text of even length whose
/// characters are all digits of either case, high digit first; an error for
/// odd length or any other character.
#[verifier::external_body]
pub(crate) fn decode_hex(s: &str) -> (r: Option<Vec<u8>>)
    ensures
        match hex_decoded(s@) {
            Some(b) => r matches Some(v) && v@ == b,
            None => r is None,
        },
{
    hex::decode(s).ok()
}

/// The CAK of the sequence, checked before the first call: an authorizer and
/// a signer must be given, and the configured CAK must be hexadecimal text of
/// 48 bytes.
pub fn dot_start(has_authorizer: bool, has_signer: bool, cak_hex: Option<&str>) -> (r: Result<Vec<u8>, DotStartError>)
    ensures
        !has_authorizer ==> r == Err::<Vec<u8>, DotStartError>(DotStartError::NoAuthorizer),
        has_authorizer && !has_signer ==> r == Err::<Vec<u8>, DotStartError>(DotStartError::NoSigner),
        has_authorizer && has_signer ==> match cak_hex {
            None => r == Err::<Vec<u8>, DotStartError>(DotStartError::NoCak),
            Some(s) => match hex_decoded(s@) {
                None => r == Err::<Vec<u8>, DotStartError>(DotStartError::InvalidCakHex),
                Some(b) => if b.len() == DOT_KEY_LEN {
                    r matches Ok(v) && v@ == b
                } else {
                    r == Err::<Vec<u8>, DotStartError>(DotStartError::InvalidCakLength(b.len() as usize))
                },
            },
        },
{
    if !has_authorizer {
        return Err(DotStartError::NoAuthorizer);
    }
    if !has_signer {
        return Err(DotStartError::NoSigner);
    }
    let s = match cak_hex {
        Some(s) => s,
        None => return Err(DotStartError::NoCak),
    };
    let bytes = match decode_hex(s) {
        Some(b) => b,
        None => return Err(DotStartError::InvalidCakHex),
    };
    if bytes.len() != DOT_KEY_LEN {
        return Err(DotStartError::InvalidCakLength(bytes.len()));
    }
    Ok(bytes)
}

/// The DOT_LOCK payload to authorize: the command identifier
/// (little-endian), the CAK, the LAK hash.
pub fn dot_lock_payload(cak: &[u8], lak_hash: &[u8]) -> (r: Vec<u8>)
    ensures
        r@ == le4(MC_DOT_LOCK_CANONICAL_CMD_ID) + cak@ + lak_hash@,
{
    let mut v: Vec<u8> = Vec::new();
    push_u32(&mut v, MC_DOT_LOCK_CANONICAL_CMD_ID);
    append_bytes(&mut v, cak);
    append_bytes(&mut v, lak_hash);
    v
}

/// The GET_DOT_BACKUP_BLOB payload to authorize: the command identifier.
pub fn dot_backup_blob_payload() -> (r: Vec<u8>)
    ensures
        r@ == le4(MC_GET_DOT_BACKUP_BLOB_CANONICAL_CMD_ID),
{
    let mut v: Vec<u8> = Vec::new();
    push_u32(&mut v, MC_GET_DOT_BACKUP_BLOB_CANONICAL_CMD_ID);
    assert(v@ =~= le4(MC_GET_DOT_BACKUP_BLOB_CANONICAL_CMD_ID));
    v
}

/// The DOT_ROTATE payload to authorize: the command identifier, the
/// minimum fuse count, the CAK, the LAK hash.
pub fn dot_rotate_payload(min_fuse_count: u32, cak: &[u8], lak_hash: &[u8]) -> (r: Vec<u8>)
    ensures
        r@ == le4(MC_DOT_ROTATE_CANONICAL_CMD_ID) + le4(min_fuse_count) + cak@ + lak_hash@,
{
    let mut v: Vec<u8> = Vec::new();
    push_u32(&mut v, MC_DOT_ROTATE_CANONICAL_CMD_ID);
    push_u32(&mut v, min_fuse_count);
    append_bytes(&mut v, cak);
    append_bytes(&mut v, lak_hash);
    v
}

/// The DOT_UNLOCK transcript to sign: the command identifier (big-endian),
/// then the challenge.
pub fn dot_unlock_transcript(challenge: &[u8]) -> (r: Vec<u8>)
    ensures
        r@ == be4(MC_DOT_UNLOCK_CANONICAL_CMD_ID) + challenge@,
{
    let mut v: Vec<u8> = Vec::new();
    let id = u32_to_be(MC_DOT_UNLOCK_CANONICAL_CMD_ID);
    append_bytes(&mut v, &id);
    append_bytes(&mut v, challenge);
    v
}

/// The DOT_DISABLE payload to authorize: the command identifier, the LAK
/// hash.
pub fn dot_disable_payload(lak_hash: &[u8]) -> (r: Vec<u8>)
    ensures
        r@ == le4(MC_DOT_DISABLE_CANONICAL_CMD_ID) + lak_hash@,
{
    let mut v: Vec<u8> = Vec::new();
    push_u32(&mut v, MC_DOT_DISABLE_CANONICAL_CMD_ID);
    append_bytes(&mut v, lak_hash);
    v
}

/// The sequence goes through its stages in order and ends at the first
/// failure: from any stage, an event either moves to the next stage of the
/// order, or ends the sequence with a failed check.
pub proof fn lemma_dot_progress(stage: DotStage, event: DotEvent)
    ensures
        ({
            let (next, rec) = spec_dot_step(stage, event);
            next == DotStage::Done || next == dot_next_stage(stage)
        }),
        ({
            let (next, rec) = spec_dot_step(stage, event);
            rec matches Some((c, st)) && st == ValidationStatus::Fail ==> next == DotStage::Done
        }),
{
}

/// The stage after a successful one.
pub open spec fn dot_next_stage(stage: DotStage) -> DotStage {
    match stage {
        DotStage::Status => DotStage::Keys,
        DotStage::Keys => DotStage::Lock,
        DotStage::Lock => DotStage::BackupBlob,
        DotStage::BackupBlob => DotStage::Rotate,
        DotStage::Rotate => DotStage::UnlockChallenge,
        DotStage::UnlockChallenge => DotStage::SignUnlock,
        DotStage::SignUnlock => DotStage::Unlock,
        DotStage::Unlock => DotStage::Disable,
        DotStage::Disable => DotStage::Done,
        DotStage::Done => DotStage::Done,
    }
}

/// What a recorded result says besides its status.
#[derive(Debug, Clone, Copy, PartialEq, Eq, Structural)]
pub enum DotDetail {
    /// Enabled and unlocked, with this many fuses burned.
    Unlocked { burned: u16 },
    /// Not the enabled, unlocked state: the state found.
    UnexpectedState { enabled: u8, locked: u8, burned: u16 },
    /// The transition is committed.
    TransitionCommitted,
    /// The epoch is rotated.
    EpochRotated,
    /// The transition answered with this `reset_required`.
    UnexpectedReset(u32),
    /// An authenticated blob came back.
    BlobReturned,
    /// The blob came back empty.
    EmptyBlob,
    /// The 48-byte challenge came back.
    ChallengeReceived,
    /// The LAK public keys could not be derived; the error follows.
    KeysFailed,
    /// The command could not be authorized; the error follows.
    AuthorizationFailed,
    /// The unlock transcript could not be signed; the error follows.
    SigningFailed,
    /// The text of the error alone.
    Error,
}

/// The detail of a transition's result: committed under the given detail, or
/// the reset it answered, or why it failed.
pub open spec fn transition_detail(event: DotEvent, done: DotDetail, prefixed: bool) -> DotDetail {
    match event {
        DotEvent::Transition { reset_required } => if reset_required == 1 {
            done
        } else {
            DotDetail::UnexpectedReset(reset_required)
        },
        DotEvent::NotAuthorized => if prefixed {
            DotDetail::AuthorizationFailed
        } else {
            DotDetail::Error
        },
        _ => DotDetail::Error,
    }
}

/// The detail of the result a step records, where it records one. The
/// authorization failures of DOT_LOCK and DOT_DISABLE say which command
/// they were for; those of the backup blob and the rotation give the error
/// alone.
pub open spec fn spec_dot_detail(stage: DotStage, event: DotEvent) -> Option<DotDetail> {
    match stage {
        DotStage::Status => Some(match event {
            DotEvent::Status { enabled, locked, burned } => if enabled == 1 && locked == 0 {
                DotDetail::Unlocked { burned }
            } else {
                DotDetail::UnexpectedState { enabled, locked, burned }
            },
            _ => DotDetail::Error,
        }),
        DotStage::Keys => if event == DotEvent::Succeeded { None } else { Some(DotDetail::KeysFailed) },
        DotStage::Lock => Some(transition_detail(event, DotDetail::TransitionCommitted, true)),
        DotStage::BackupBlob => Some(match event {
            DotEvent::Blob { nonzero } => if nonzero { DotDetail::BlobReturned } else { DotDetail::EmptyBlob },
            _ => DotDetail::Error,
        }),
        DotStage::Rotate => Some(transition_detail(event, DotDetail::EpochRotated, false)),
        DotStage::UnlockChallenge => Some(if event == DotEvent::Succeeded {
            DotDetail::ChallengeReceived
        } else {
            DotDetail::Error
        }),
        DotStage::SignUnlock => if event == DotEvent::Succeeded { None } else { Some(DotDetail::SigningFailed) },
        DotStage::Unlock => Some(transition_detail(event, DotDetail::TransitionCommitted, false)),
        DotStage::Disable => Some(transition_detail(event, DotDetail::TransitionCommitted, true)),
        DotStage::Done => None,
    }
}

fn transition_detail_of(event: DotEvent, done: DotDetail, prefixed: bool) -> (r: DotDetail)
    ensures
        r == transition_detail(event, done, prefixed),
{
    match event {
        DotEvent::Transition { reset_required } => if reset_required == 1 {
            done
        } else {
            DotDetail::UnexpectedReset(reset_required)
        },
        DotEvent::NotAuthorized => if prefixed {
            DotDetail::AuthorizationFailed
        } else {
            DotDetail::Error
        },
        _ => DotDetail::Error,
    }
}

/// The detail of the result a step records.
pub fn dot_detail(stage: DotStage, event: DotEvent) -> (r: Option<DotDetail>)
    ensures
        r == spec_dot_detail(stage, event),
{
    let succeeded = match event {
        DotEvent::Succeeded => true,
        _ => false,
    };
    match stage {
        DotStage::Status => Some(match event {
            DotEvent::Status { enabled, locked, burned } => if enabled == 1 && locked == 0 {
                DotDetail::Unlocked { burned }
            } else {
                DotDetail::UnexpectedState { enabled, locked, burned }
            },
            _ => DotDetail::Error,
        }),
        DotStage::Keys => if succeeded { None } else { Some(DotDetail::KeysFailed) },
        DotStage::Lock => Some(transition_detail_of(event, DotDetail::TransitionCommitted, true)),
        DotStage::BackupBlob => Some(match event {
            DotEvent::Blob { nonzero } => if nonzero { DotDetail::BlobReturned } else { DotDetail::EmptyBlob },
            _ => DotDetail::Error,
        }),
        DotStage::Rotate => Some(transition_detail_of(event, DotDetail::EpochRotated, false)),
        DotStage::UnlockChallenge => Some(if succeeded { DotDetail::ChallengeReceived } else { DotDetail::Error }),
        DotStage::SignUnlock => if succeeded { None } else { Some(DotDetail::SigningFailed) },
        DotStage::Unlock => Some(transition_detail_of(event, DotDetail::TransitionCommitted, false)),
        DotStage::Disable => Some(transition_detail_of(event, DotDetail::TransitionCommitted, true)),
        DotStage::Done => None,
    }
}

/// A step records a detail exactly when it records a result, and a passing
/// result has one of the success details.
pub proof fn lemma_dot_detail_matches_result(stage: DotStage, event: DotEvent)
    ensures
        (spec_dot_detail(stage, event) is Some) == (spec_dot_step(stage, event).1 is Some),
        spec_dot_step(stage, event).1 matches Some((c, st)) ==> ((st == ValidationStatus::Pass) <==> (
        spec_dot_detail(stage, event) matches Some(d) && (d is Unlocked || d == DotDetail::TransitionCommitted
            || d == DotDetail::EpochRotated || d == DotDetail::BlobReturned || d
            == DotDetail::ChallengeReceived))),
{
}

} // verus!
