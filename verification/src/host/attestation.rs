//! The GET_ATTESTATION checks: a query of the evidence formats the device
//! advertises, evidence in each advertised format, and a request in a format
//! it does not advertise, which it must refuse. What each answer decides,
//! and what is asked next, is a step from stage and answer. Also the result
//! of exporting an attested CSR for a key.
use crate::host::validator::ValidationStatus;
use vstd::prelude::*;

verus! {

/// The checks.
#[derive(Debug, Clone, Copy, PartialEq, Eq, Structural)]
pub enum AttestationCheck {
    /// The query of the supported formats; an unknown algorithm is reported
    /// under it too.
    Query,
    /// Evidence in the advertised format at this position of the advertised
    /// formats, in the order the host lists them.
    Evidence(u32),
    /// The request in a format the device does not advertise.
    Unadvertised,
}

/// What a result says besides its status.
#[derive(Debug, Clone, Copy, PartialEq, Eq, Structural)]
pub enum AttestationDetail {
    /// The configured algorithm is none the host knows.
    UnknownAlgorithm,
    /// The device advertises no format at all.
    NoFormats,
    /// The advertised formats, as a bitmap.
    Bitmap(u32),
    /// The text of the error that came back.
    Error,
    /// Validated evidence of this many bytes.
    EvidenceBytes(usize),
    /// The device does not serve this format with this algorithm; the text
    /// of its error follows.
    PairNotSupported,
    /// The device answered a format it does not advertise.
    AnsweredUnadvertised,
    /// The device refused the unadvertised format; the text of its error
    /// follows.
    Rejected,
}

/// One recorded result.
#[derive(Debug, Clone, Copy, PartialEq, Eq, Structural)]
pub struct AttestationResult {
    pub check: AttestationCheck,
    pub status: ValidationStatus,
    pub detail: AttestationDetail,
}

/// The next request to make.
#[derive(Debug, Clone, Copy, PartialEq, Eq, Structural)]
pub enum AttestationStage {
    /// Query the supported formats.
    Query,
    /// Ask for evidence in the advertised format at `index` of `count`; then,
    /// if `unadvertised`, ask in a format that is not advertised.
    Evidence { index: u32, count: u32, unadvertised: bool },
    /// Ask in a format that is not advertised.
    Unadvertised,
    /// Nothing is left to ask.
    Done,
}

/// What the request of the current stage gave.
#[derive(Debug, Clone, Copy, PartialEq, Eq, Structural)]
pub enum AttestationEvent {
    /// The query answered with this bitmap; `advertised` is how many of the
    /// formats the host knows are in it, `unadvertised` whether some known
    /// format is not.
    Formats { bitmap: u32, advertised: u32, unadvertised: bool },
    /// An answer came back that does not hold what was asked (a malformed
    /// bitmap, or evidence that fails validation).
    Malformed,
    /// Evidence came back and validated, with this many bytes.
    Evidence { len: usize },
    /// The request failed; `not_supported` when the error names
    /// `NotSupported`.
    Failed { not_supported: bool },
}

/// A result.
pub open spec fn att_result(check: AttestationCheck, status: ValidationStatus, detail: AttestationDetail) -> AttestationResult {
    AttestationResult { check, status, detail }
}

/// The stage that follows the evidence of `index`, of `count` advertised
/// formats.
pub open spec fn after_evidence(index: u32, count: u32, unadvertised: bool) -> AttestationStage {
    if index + 1 < count {
        AttestationStage::Evidence { index: (index + 1) as u32, count, unadvertised }
    } else if unadvertised {
        AttestationStage::Unadvertised
    } else {
        AttestationStage::Done
    }
}

/// The stage that follows a query that advertised `count` known formats.
pub open spec fn after_query(count: u32, unadvertised: bool) -> AttestationStage {
    if count > 0 {
        AttestationStage::Evidence { index: 0, count, unadvertised }
    } else if unadvertised {
        AttestationStage::Unadvertised
    } else {
        AttestationStage::Done
    }
}

/// One step of the checks. The query passes with a nonzero bitmap and the
/// run goes on to the advertised formats; a zero bitmap or a malformed
/// answer fails it, an error skips it when it names `NotSupported` and fails
/// it otherwise, and each of these ends the run. Evidence passes when it
/// validates, is skipped when the device does not serve the pair, and fails
/// otherwise; the run goes on either way. The unadvertised format passes
/// exactly when the device refuses it.
pub open spec fn spec_attestation_step(stage: AttestationStage, event: AttestationEvent) -> (AttestationStage, Option<AttestationResult>) {
    let q = AttestationCheck::Query;
    match stage {
        AttestationStage::Query => match event {
            AttestationEvent::Formats { bitmap, advertised, unadvertised } => if bitmap == 0 {
                (AttestationStage::Done, Some(att_result(q, ValidationStatus::Fail, AttestationDetail::NoFormats)))
            } else {
                (after_query(advertised, unadvertised), Some(att_result(q, ValidationStatus::Pass, AttestationDetail::Bitmap(bitmap))))
            },
            AttestationEvent::Failed { not_supported } => (
                AttestationStage::Done,
                Some(att_result(q, if not_supported { ValidationStatus::Skip } else { ValidationStatus::Fail }, AttestationDetail::Error)),
            ),
            _ => (AttestationStage::Done, Some(att_result(q, ValidationStatus::Fail, AttestationDetail::Error))),
        },
        AttestationStage::Evidence { index, count, unadvertised } => {
            let c = AttestationCheck::Evidence(index);
            let next = after_evidence(index, count, unadvertised);
            match event {
                AttestationEvent::Evidence { len } => (next, Some(att_result(c, ValidationStatus::Pass, AttestationDetail::EvidenceBytes(len)))),
                AttestationEvent::Failed { not_supported } => if not_supported {
                    (next, Some(att_result(c, ValidationStatus::Skip, AttestationDetail::PairNotSupported)))
                } else {
                    (next, Some(att_result(c, ValidationStatus::Fail, AttestationDetail::Error)))
                },
                _ => (next, Some(att_result(c, ValidationStatus::Fail, AttestationDetail::Error))),
            }
        },
        AttestationStage::Unadvertised => match event {
            AttestationEvent::Failed { .. } => (
                AttestationStage::Done,
                Some(att_result(AttestationCheck::Unadvertised, ValidationStatus::Pass, AttestationDetail::Rejected)),
            ),
            _ => (
                AttestationStage::Done,
                Some(att_result(AttestationCheck::Unadvertised, ValidationStatus::Fail, AttestationDetail::AnsweredUnadvertised)),
            ),
        },
        AttestationStage::Done => (AttestationStage::Done, None),
    }
}

/// The first stage, or the failed query when the configured algorithm is
/// none the host knows; nothing is sent then.
pub fn attestation_start(algorithm_known: bool) -> (r: Result<AttestationStage, AttestationResult>)
    ensures
        r == (if algorithm_known {
            Ok::<AttestationStage, AttestationResult>(AttestationStage::Query)
        } else {
            Err(att_result(AttestationCheck::Query, ValidationStatus::Fail, AttestationDetail::UnknownAlgorithm))
        }),
{
    if algorithm_known {
        Ok(AttestationStage::Query)
    } else {
        Err(AttestationResult {
            check: AttestationCheck::Query,
            status: ValidationStatus::Fail,
            detail: AttestationDetail::UnknownAlgorithm,
        })
    }
}

fn next_after_evidence(index: u32, count: u32, unadvertised: bool) -> (r: AttestationStage)
    requires
        index < count,
    ensures
        r == after_evidence(index, count, unadvertised),
{
    if index + 1 < count {
        AttestationStage::Evidence { index: index + 1, count, unadvertised }
    } else if unadvertised {
        AttestationStage::Unadvertised
    } else {
        AttestationStage::Done
    }
}

/// One step of the checks: the next stage and the result to record. A stage
/// of evidence names one of its `count` formats.
pub fn attestation_step(stage: AttestationStage, event: AttestationEvent) -> (r: (AttestationStage, Option<AttestationResult>))
    requires
        stage matches AttestationStage::Evidence { index, count, .. } ==> index < count,
    ensures
        r == spec_attestation_step(stage, event),
{
    let fail = ValidationStatus::Fail;
    match stage {
        AttestationStage::Query => {
            let q = AttestationCheck::Query;
            match event {
                AttestationEvent::Formats { bitmap, advertised, unadvertised } => if bitmap == 0 {
                    (AttestationStage::Done, Some(AttestationResult { check: q, status: fail, detail: AttestationDetail::NoFormats }))
                } else {
                    let next = if advertised > 0 {
                        AttestationStage::Evidence { index: 0, count: advertised, unadvertised }
                    } else if unadvertised {
                        AttestationStage::Unadvertised
                    } else {
                        AttestationStage::Done
                    };
                    (next, Some(AttestationResult { check: q, status: ValidationStatus::Pass, detail: AttestationDetail::Bitmap(bitmap) }))
                },
                AttestationEvent::Failed { not_supported } => {
                    let status = if not_supported { ValidationStatus::Skip } else { fail };
                    (AttestationStage::Done, Some(AttestationResult { check: q, status, detail: AttestationDetail::Error }))
                },
                _ => (AttestationStage::Done, Some(AttestationResult { check: q, status: fail, detail: AttestationDetail::Error })),
            }
        },
        AttestationStage::Evidence { index, count, unadvertised } => {
            let c = AttestationCheck::Evidence(index);
            let next = next_after_evidence(index, count, unadvertised);
            let (status, detail) = match event {
                AttestationEvent::Evidence { len } => (ValidationStatus::Pass, AttestationDetail::EvidenceBytes(len)),
                AttestationEvent::Failed { not_supported } => if not_supported {
                    (ValidationStatus::Skip, AttestationDetail::PairNotSupported)
                } else {
                    (fail, AttestationDetail::Error)
                },
                _ => (fail, AttestationDetail::Error),
            };
            (next, Some(AttestationResult { check: c, status, detail }))
        },
        AttestationStage::Unadvertised => {
            let u = AttestationCheck::Unadvertised;
            match event {
                AttestationEvent::Failed { .. } => (
                    AttestationStage::Done,
                    Some(AttestationResult { check: u, status: ValidationStatus::Pass, detail: AttestationDetail::Rejected }),
                ),
                _ => (
                    AttestationStage::Done,
                    Some(AttestationResult { check: u, status: fail, detail: AttestationDetail::AnsweredUnadvertised }),
                ),
            }
        },
        AttestationStage::Done => (AttestationStage::Done, None),
    }
}

/// How many requests are left at most, counting from a stage.
pub open spec fn att_requests_left(stage: AttestationStage) -> int {
    match stage {
        AttestationStage::Query => 0x1_0000_0003,
        AttestationStage::Evidence { index, count, unadvertised } => (if index < count {
            count - index
        } else {
            0
        }) + 1 + (if unadvertised { 1int } else { 0int }),
        AttestationStage::Unadvertised => 1,
        AttestationStage::Done => 0,
    }
}

/// Every step before the end records exactly one result and leaves fewer
/// requests to make, so the checks end; at the end nothing is recorded.
pub proof fn lemma_attestation_progress(stage: AttestationStage, event: AttestationEvent)
    ensures
        stage != AttestationStage::Done ==> spec_attestation_step(stage, event).1 is Some
            && 0 <= att_requests_left(spec_attestation_step(stage, event).0) < att_requests_left(stage),
        stage == AttestationStage::Done ==> spec_attestation_step(stage, event) == (AttestationStage::Done, None::<AttestationResult>),
{
}

/// The unadvertised format passes only when the device refuses it, and a
/// query that advertises nothing fails and ends the run.
pub proof fn lemma_attestation_refusals(advertised: u32, unadvertised: bool, len: usize)
    ensures
        spec_attestation_step(AttestationStage::Unadvertised, AttestationEvent::Evidence { len }).1
            == Some(att_result(AttestationCheck::Unadvertised, ValidationStatus::Fail, AttestationDetail::AnsweredUnadvertised)),
        spec_attestation_step(AttestationStage::Query, AttestationEvent::Formats { bitmap: 0, advertised, unadvertised })
            == (AttestationStage::Done, Some(att_result(AttestationCheck::Query, ValidationStatus::Fail, AttestationDetail::NoFormats))),
{
}

/// The bytes of `NotSupported`.
pub open spec fn not_supported_marker() -> Seq<u8> {
    seq![78u8, 111, 116, 83, 117, 112, 112, 111, 114, 116, 101, 100]
}

/// `pat` stands in `s` from position `i` on.
pub open spec fn occurs_at(s: Seq<u8>, pat: Seq<u8>, i: int) -> bool {
    0 <= i && i + pat.len() <= s.len() && s.subrange(i, i + pat.len()) == pat
}

/// Whether an error's text names `NotSupported`, taken as its UTF-8 bytes.
pub fn mentions_not_supported(text: &[u8]) -> (r: bool)
    ensures
        r == exists|i: int| occurs_at(text@, not_supported_marker(), i),
{
    let marker: Vec<u8> = vec![78u8, 111, 116, 83, 117, 112, 112, 111, 114, 116, 101, 100];
    assert(marker@ =~= not_supported_marker());
    let m: usize = marker.len();
    if text.len() < m {
        assert forall|i: int| !occurs_at(text@, not_supported_marker(), i) by {}
        return false;
    }
    let last: usize = text.len() - m;
    let mut i: usize = 0;
    while i <= last
        invariant
            last == text@.len() - m,
            last + m == text.len(),
            m == 12,
            marker@ == not_supported_marker(),
            i <= last + 1,
            forall|k: int| 0 <= k < i ==> !occurs_at(text@, not_supported_marker(), k),
        decreases last + 1 - i,
    {
        let mut j: usize = 0;
        while j < m
            invariant
                m == 12,
                marker@ == not_supported_marker(),
                i <= last,
                last == text@.len() - m,
                last + m == text.len(),
                j <= m,
                forall|t: int| 0 <= t < j ==> text@[i + t] == marker@[t],
            ensures
                j <= m,
                forall|t: int| 0 <= t < j ==> text@[i + t] == marker@[t],
                j < m ==> text@[i + j] != marker@[j as int],
            decreases m - j,
        {
            if text[i + j] != marker[j] {
                break;
            }
            j = j + 1;
        }
        if j == m {
            assert(text@.subrange(i as int, i + 12) =~= not_supported_marker());
            assert(occurs_at(text@, not_supported_marker(), i as int));
            return true;
        }
        assert(!occurs_at(text@, not_supported_marker(), i as int)) by {
            if occurs_at(text@, not_supported_marker(), i as int) {
                assert(text@.subrange(i as int, i + 12)[j as int] == text@[i + j]);
            }
        }
        i = i + 1;
    }
    assert forall|k: int| !occurs_at(text@, not_supported_marker(), k) by {}
    false
}

/// How the export of an attested CSR for one key ended.
#[derive(Debug, Clone, Copy, PartialEq, Eq, Structural)]
pub enum CsrOutcome {
    /// The CSR came back and validated, with this many bytes.
    Valid(usize),
    /// The CSR came back empty.
    Empty,
    /// The CSR's length is over the maximum.
    TooLarge(usize),
    /// The request failed; `not_supported` when the error names
    /// `NotSupported`.
    Failed { not_supported: bool },
}

/// What a CSR result says besides its status.
#[derive(Debug, Clone, Copy, PartialEq, Eq, Structural)]
pub enum CsrDetail {
    /// This many bytes of CSR.
    Bytes(usize),
    /// The CSR data is empty.
    Empty,
    /// The CSR length that exceeds the maximum.
    TooLarge(usize),
    /// The text of the error.
    Error,
}

/// The result for one key: a validated CSR passes, an empty or oversized one
/// fails, and a failed request is skipped when the device does not support
/// it and fails otherwise.
pub open spec fn spec_csr_result(o: CsrOutcome) -> (ValidationStatus, CsrDetail) {
    match o {
        CsrOutcome::Valid(len) => (ValidationStatus::Pass, CsrDetail::Bytes(len)),
        CsrOutcome::Empty => (ValidationStatus::Fail, CsrDetail::Empty),
        CsrOutcome::TooLarge(len) => (ValidationStatus::Fail, CsrDetail::TooLarge(len)),
        CsrOutcome::Failed { not_supported } => (
            if not_supported { ValidationStatus::Skip } else { ValidationStatus::Fail },
            CsrDetail::Error,
        ),
    }
}

/// The result for one key.
pub fn csr_result(o: CsrOutcome) -> (r: (ValidationStatus, CsrDetail))
    ensures
        r == spec_csr_result(o),
{
    match o {
        CsrOutcome::Valid(len) => (ValidationStatus::Pass, CsrDetail::Bytes(len)),
        CsrOutcome::Empty => (ValidationStatus::Fail, CsrDetail::Empty),
        CsrOutcome::TooLarge(len) => (ValidationStatus::Fail, CsrDetail::TooLarge(len)),
        CsrOutcome::Failed { not_supported } => (
            if not_supported { ValidationStatus::Skip } else { ValidationStatus::Fail },
            CsrDetail::Error,
        ),
    }
}

} // verus!
