//! Which validations a client run makes, in which order, from its
//! configuration.
use vstd::prelude::*;

verus! {

/// What the plan reads of a run's configuration and of what the caller
/// supplied.
#[derive(Debug, Clone, Copy, PartialEq, Eq, Structural)]
pub struct ValidationConfig {
    /// A fuse suite is named: it runs alone.
    pub fuse_suite: bool,
    /// The attestation nonce of the configuration is valid.
    pub attestation_nonce_valid: bool,
    pub debug_unlock_enabled: bool,
    /// A debug unlock signer was supplied.
    pub has_debug_unlock_signer: bool,
    pub negative_authorization_tests: bool,
    pub policy_rejection_tests: bool,
    pub provision_vendor_pk_hash: bool,
    pub provision_owner_pk_hash: bool,
    pub increase_caliptra_min_svn: bool,
    pub fe_prog: bool,
    pub revoke_vendor_pub_key: bool,
    pub revoke_vendor_pk_hash: bool,
    pub dot: bool,
}

/// One validation of a run.
#[derive(Debug, Clone, Copy, PartialEq, Eq, Structural)]
pub enum Validation {
    FuseSuite,
    ExportAttestedCsr,
    GetAttestation,
    /// The attestation configuration is invalid: a failed result.
    GetAttestationConfigInvalid,
    ProdDebugUnlock,
    /// Debug unlock is asked for but no signer was supplied: a skipped
    /// result.
    ProdDebugUnlockSkipped,
    NegativeAuthorization,
    FusePolicyRejection,
    ProvisionVendorPkHash,
    ProvisionOwnerPkHash,
    IncreaseCaliptraMinSvn,
    FeProg,
    RevokeVendorPubKey,
    RevokeVendorPkHash,
    Dot,
}

/// `v` when `b` holds, nothing otherwise.
pub open spec fn when(b: bool, v: Validation) -> Seq<Validation> {
    if b {
        seq![v]
    } else {
        Seq::empty()
    }
}

/// The validations of a run, in order: a fuse suite alone; otherwise the
/// attested CSR export, attestation (or its configuration failure), debug
/// unlock (or its skip), then each enabled authorized-command check, and
/// the DOT sequence last.
pub open spec fn spec_plan(cfg: ValidationConfig) -> Seq<Validation> {
    if cfg.fuse_suite {
        seq![Validation::FuseSuite]
    } else {
        seq![Validation::ExportAttestedCsr] + seq![
            if cfg.attestation_nonce_valid {
                Validation::GetAttestation
            } else {
                Validation::GetAttestationConfigInvalid
            },
        ] + when(
            cfg.debug_unlock_enabled,
            if cfg.has_debug_unlock_signer {
                Validation::ProdDebugUnlock
            } else {
                Validation::ProdDebugUnlockSkipped
            },
        ) + when(cfg.negative_authorization_tests, Validation::NegativeAuthorization) + when(
            cfg.policy_rejection_tests,
            Validation::FusePolicyRejection,
        ) + when(cfg.provision_vendor_pk_hash, Validation::ProvisionVendorPkHash) + when(
            cfg.provision_owner_pk_hash,
            Validation::ProvisionOwnerPkHash,
        ) + when(cfg.increase_caliptra_min_svn, Validation::IncreaseCaliptraMinSvn) + when(
            cfg.fe_prog,
            Validation::FeProg,
        ) + when(cfg.revoke_vendor_pub_key, Validation::RevokeVendorPubKey) + when(
            cfg.revoke_vendor_pk_hash,
            Validation::RevokeVendorPkHash,
        ) + when(cfg.dot, Validation::Dot)
    }
}

/// Appends `v` when `b` holds.
fn push_when(plan: &mut Vec<Validation>, b: bool, v: Validation)
    ensures
        final(plan)@ == old(plan)@ + when(b, v),
{
    if b {
        plan.push(v);
    }
    assert(plan@ =~= old(plan)@ + when(b, v));
}

/// The validations of a run, in order.
pub fn plan_validations(cfg: &ValidationConfig) -> (r: Vec<Validation>)
    ensures
        r@ == spec_plan(*cfg),
{
    let mut plan: Vec<Validation> = Vec::new();
    if cfg.fuse_suite {
        plan.push(Validation::FuseSuite);
        assert(plan@ =~= spec_plan(*cfg));
        return plan;
    }
    plan.push(Validation::ExportAttestedCsr);
    if cfg.attestation_nonce_valid {
        plan.push(Validation::GetAttestation);
    } else {
        plan.push(Validation::GetAttestationConfigInvalid);
    }
    assert(plan@ =~= seq![Validation::ExportAttestedCsr] + seq![
        if cfg.attestation_nonce_valid {
            Validation::GetAttestation
        } else {
            Validation::GetAttestationConfigInvalid
        },
    ]);
    let unlock = if cfg.has_debug_unlock_signer {
        Validation::ProdDebugUnlock
    } else {
        Validation::ProdDebugUnlockSkipped
    };
    push_when(&mut plan, cfg.debug_unlock_enabled, unlock);
    push_when(&mut plan, cfg.negative_authorization_tests, Validation::NegativeAuthorization);
    push_when(&mut plan, cfg.policy_rejection_tests, Validation::FusePolicyRejection);
    push_when(&mut plan, cfg.provision_vendor_pk_hash, Validation::ProvisionVendorPkHash);
    push_when(&mut plan, cfg.provision_owner_pk_hash, Validation::ProvisionOwnerPkHash);
    push_when(&mut plan, cfg.increase_caliptra_min_svn, Validation::IncreaseCaliptraMinSvn);
    push_when(&mut plan, cfg.fe_prog, Validation::FeProg);
    push_when(&mut plan, cfg.revoke_vendor_pub_key, Validation::RevokeVendorPubKey);
    push_when(&mut plan, cfg.revoke_vendor_pk_hash, Validation::RevokeVendorPkHash);
    push_when(&mut plan, cfg.dot, Validation::Dot);
    plan
}

} // verus!
