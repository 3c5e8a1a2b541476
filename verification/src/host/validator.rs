//! Results of the validation checks that a client runs against a device.
use vstd::prelude::*;

verus! {

/// The outcome of a validation check.
#[derive(Debug, Clone, Copy, PartialEq, Eq, Structural)]
pub enum ValidationStatus {
    Pass,
    Fail,
    Skip,
}

/// The result of one validation check: its name, its outcome, and a detail.
#[derive(Debug, Clone)]
pub struct ValidationResult {
    pub test_name: String,
    pub status: ValidationStatus,
    pub detail: Option<String>,
}

impl ValidationResult {
    /// A passed check.
    pub fn pass(test_name: &str, detail: &str) -> (r: Self)
        ensures
            r.test_name@ == test_name@,
            r.status == ValidationStatus::Pass,
            r.detail matches Some(d) && d@ == detail@,
    {
        Self { test_name: test_name.to_owned(), status: ValidationStatus::Pass, detail: Some(detail.to_owned()) }
    }

    /// A failed check.
    pub fn fail(test_name: &str, detail: &str) -> (r: Self)
        ensures
            r.test_name@ == test_name@,
            r.status == ValidationStatus::Fail,
            r.detail matches Some(d) && d@ == detail@,
    {
        Self { test_name: test_name.to_owned(), status: ValidationStatus::Fail, detail: Some(detail.to_owned()) }
    }

    /// A skipped check.
    pub fn skip(test_name: &str, detail: &str) -> (r: Self)
        ensures
            r.test_name@ == test_name@,
            r.status == ValidationStatus::Skip,
            r.detail matches Some(d) && d@ == detail@,
    {
        Self { test_name: test_name.to_owned(), status: ValidationStatus::Skip, detail: Some(detail.to_owned()) }
    }
}

/// No check failed (passed and skipped checks are fine).
pub fn all_passed(results: &[ValidationResult]) -> (r: bool)
    ensures
        r == (forall|i: int| 0 <= i < results@.len() ==> #[trigger] results@[i].status != ValidationStatus::Fail),
{
    let mut i: usize = 0;
    while i < results.len()
        invariant
            i <= results@.len(),
            forall|k: int| 0 <= k < i ==> #[trigger] results@[k].status != ValidationStatus::Fail,
        decreases results@.len() - i,
    {
        let s = results[i].status;
        if !(s == ValidationStatus::Pass || s == ValidationStatus::Skip) {
            return false;
        }
        i = i + 1;
    }
    true
}

/// The number of results with the given status.
pub open spec fn count_status(results: Seq<ValidationResult>, status: ValidationStatus) -> nat
    decreases results.len(),
{
    if results.len() == 0 {
        0
    } else {
        count_status(results.drop_last(), status) + if results.last().status == status {
            1nat
        } else {
            0nat
        }
    }
}

/// The counts of a summary: passed checks, skipped checks, and checks that
/// ran (all but the skipped ones).
pub fn summary_counts(results: &[ValidationResult]) -> (r: (usize, usize, usize))
    ensures
        r.0 == count_status(results@, ValidationStatus::Pass),
        r.1 == count_status(results@, ValidationStatus::Skip),
        r.2 == results@.len() - count_status(results@, ValidationStatus::Skip),
{
    let mut passed: usize = 0;
    let mut skipped: usize = 0;
    let mut i: usize = 0;
    while i < results.len()
        invariant
            i <= results@.len(),
            passed == count_status(results@.take(i as int), ValidationStatus::Pass),
            skipped == count_status(results@.take(i as int), ValidationStatus::Skip),
            passed + skipped <= i,
        decreases results@.len() - i,
    {
        assert(results@.take(i + 1).drop_last() =~= results@.take(i as int));
        match results[i].status {
            ValidationStatus::Pass => passed = passed + 1,
            ValidationStatus::Skip => skipped = skipped + 1,
            ValidationStatus::Fail => {},
        }
        i = i + 1;
    }
    assert(results@.take(results@.len() as int) =~= results@);
    (passed, skipped, results.len() - skipped)
}

/// The tag of a status in a summary.
pub fn status_tag(status: ValidationStatus) -> (r: &'static str)
    ensures
        r@ == match status {
            ValidationStatus::Pass => "PASS"@,
            ValidationStatus::Fail => "FAIL"@,
            ValidationStatus::Skip => "SKIP"@,
        },
{
    match status {
        ValidationStatus::Pass => "PASS",
        ValidationStatus::Fail => "FAIL",
        ValidationStatus::Skip => "SKIP",
    }
}

} // verus!
