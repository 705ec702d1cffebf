use kbs_core::claims::{Claim, Claims, ReferenceStatus, TeeKind};
use kbs_core::evidence::{runtime_digest, HashAlgorithm, Quote, VerificationError};
use kbs_core::gate::{
    authorize, credential_of, get, get_inline, serve, AccessError, Credential, ResourceRequest,
    Stored,
};
use kbs_core::harness::PolicyType;
use kbs_core::orchestrator::{
    advance, attest, failure_of, AttestationSettings, FailureReason, Outcome, Phase, Step,
    Submission,
};
use kbs_core::policy::{Policy, ReferenceRule, Rules};
use kbs_core::reference::{ReferenceStore, ReferenceValue};
use kbs_core::session::{SessionError, SessionStore};
use kbs_core::token::{issue, AttestationToken, TokenEncoding, TrustTier};

fn nonce() -> Vec<u8> {
    b"0123456789abcdef".to_vec()
}

fn runtime_data() -> Vec<u8> {
    b"{\"nonce\":\"0123456789abcdef\",\"tee-pubkey\":{\"kty\":\"RSA\"}}".to_vec()
}

fn digest() -> Vec<u8> {
    runtime_digest(HashAlgorithm::Sha384, &runtime_data())
}

fn settings() -> AttestationSettings {
    AttestationSettings {
        enabled: vec![TeeKind::Sample, TeeKind::Snp],
        hash_algorithm: HashAlgorithm::Sha384,
        token_encoding: TokenEncoding::Ear,
        token_ttl: 300,
    }
}

fn references() -> ReferenceStore {
    ReferenceStore { values: vec![ReferenceValue { tee: TeeKind::Sample, measurement: vec![9, 9] }] }
}

fn submission(session_id: u64, nonce: Vec<u8>) -> Submission {
    Submission {
        session_id,
        nonce,
        tee: TeeKind::Sample,
        quote: Some(Quote {
            signature_valid: true,
            report_data: digest(),
            measurement: vec![9, 9],
            entries: vec![Claim { name: b"debug".to_vec(), value: b"off".to_vec() }],
        }),
        runtime_data: runtime_data(),
    }
}

fn expected_claims() -> Claims {
    Claims {
        tee: TeeKind::Sample,
        measurement: vec![9, 9],
        entries: vec![Claim { name: b"debug".to_vec(), value: b"off".to_vec() }],
        reference: ReferenceStatus::Matched,
    }
}

fn signed(mut token: AttestationToken) -> Credential {
    token.signature = vec![0xee; 64];
    Credential::Token { token, signature_valid: true }
}

#[test]
fn scenario_allow_reaches_token_and_releases_bytes() {
    let mut store = SessionStore::new(60);
    let id = store.start_session_with(nonce(), 1000);
    let policy = PolicyType::AllowAll.rules();
    let outcome = attest(&mut store, submission(id, nonce()), &settings(), &references(), &policy, 1010);
    assert_eq!(outcome.phase, Phase::TokenIssued);
    let token = outcome.token.expect("a token is issued");
    assert_eq!(token.claims, expected_claims());
    assert_eq!(token.issued_at, 1010);
    assert_eq!(token.expires_at, 1310);
    assert_eq!(token.appraisal, Some(TrustTier::Affirming));
    for path in [b"default/key/one".to_vec(), b"other/secret/two".to_vec(), vec![]] {
        let got = get(
            &path,
            signed(token.clone()),
            &policy,
            1020,
            Stored::Found(b"stored bytes".to_vec()),
        );
        assert_eq!(got, Ok(b"stored bytes".to_vec()));
    }
}

#[test]
fn scenario_deny_fails_policy_and_gate_is_unauthenticated() {
    let mut store = SessionStore::new(60);
    let id = store.start_session_with(nonce(), 1000);
    let policy = PolicyType::DenyAll.rules();
    let outcome = attest(&mut store, submission(id, nonce()), &settings(), &references(), &policy, 1010);
    assert_eq!(outcome.phase, Phase::Failed(FailureReason::PolicyDenied));
    assert_eq!(outcome.token, None);
    let got = get(
        &b"default/key/one".to_vec(),
        Credential::Missing,
        &policy,
        1020,
        Stored::Found(b"stored bytes".to_vec()),
    );
    assert_eq!(got, Err(AccessError::Unauthenticated));
}

#[test]
fn scenario_wrong_nonce_fails_and_consumes_session() {
    let mut store = SessionStore::new(60);
    let id = store.start_session_with(nonce(), 1000);
    let policy = PolicyType::AllowAll.rules();
    let wrong = b"fedcba9876543210".to_vec();
    let outcome = attest(&mut store, submission(id, wrong), &settings(), &references(), &policy, 1010);
    assert_eq!(outcome.phase, Phase::Failed(FailureReason::InvalidNonce));
    assert_eq!(outcome.token, None);
    let retry = attest(&mut store, submission(id, nonce()), &settings(), &references(), &policy, 1011);
    assert_eq!(retry.phase, Phase::Failed(FailureReason::InvalidNonce));
    assert_eq!(retry.token, None);
}

#[test]
fn scenario_missing_resource_is_not_found_after_authorization() {
    let mut store = SessionStore::new(60);
    let id = store.start_session_with(nonce(), 1000);
    let policy = PolicyType::AllowAll.rules();
    let outcome = attest(&mut store, submission(id, nonce()), &settings(), &references(), &policy, 1010);
    let token = outcome.token.expect("a token is issued");
    let path = b"default/key/none".to_vec();
    assert_eq!(
        get(&path, signed(token.clone()), &policy, 1020, Stored::Absent),
        Err(AccessError::NotFound)
    );
    assert_eq!(
        get(&path, Credential::Missing, &policy, 1020, Stored::Absent),
        Err(AccessError::Unauthenticated)
    );
    assert_eq!(
        get(&path, signed(token), &PolicyType::DenyAll.rules(), 1020, Stored::Absent),
        Err(AccessError::Denied)
    );
}

#[test]
fn updated_policy_denies_an_issued_token() {
    let allow = PolicyType::AllowAll.rules();
    let token = issue(expected_claims(), TokenEncoding::Simple, 1000, 300);
    let path = b"default/key/one".to_vec();
    let stored = Stored::Found(vec![1, 2, 3]);
    assert_eq!(get(&path, signed(token.clone()), &allow, 1001, stored.clone()), Ok(vec![1, 2, 3]));
    let narrowed = Policy::Active(Rules {
        allow: true,
        reference_rule: ReferenceRule::Ignore,
        resources: Some(vec![b"default/key/two".to_vec()]),
    });
    assert_eq!(
        get(&path, signed(token.clone()), &narrowed, 1002, stored.clone()),
        Err(AccessError::Denied)
    );
    assert_eq!(
        get(&path, signed(token), &PolicyType::DenyAll.rules(), 1003, stored),
        Err(AccessError::Denied)
    );
}

#[test]
fn expired_or_unsigned_token_is_unauthenticated() {
    let allow = PolicyType::AllowAll.rules();
    let token = issue(expected_claims(), TokenEncoding::Simple, 1000, 300);
    let path = b"p".to_vec();
    assert_eq!(
        get(&path, signed(token.clone()), &allow, 1301, Stored::Found(vec![1])),
        Err(AccessError::Unauthenticated)
    );
    assert_eq!(
        get(
            &path,
            Credential::Token { token, signature_valid: false },
            &allow,
            1001,
            Stored::Found(vec![1])
        ),
        Err(AccessError::Unauthenticated)
    );
}

#[test]
fn repository_failure_is_reported_after_authorization() {
    let allow = PolicyType::AllowAll.rules();
    let token = issue(expected_claims(), TokenEncoding::Simple, 1000, 300);
    assert_eq!(
        get(&b"p".to_vec(), signed(token), &allow, 1001, Stored::Failed),
        Err(AccessError::RepositoryIO)
    );
    assert_eq!(
        get(&b"p".to_vec(), Credential::Missing, &allow, 1001, Stored::Failed),
        Err(AccessError::Unauthenticated)
    );
}

#[test]
fn authorize_gives_the_tokens_claims() {
    let allow = PolicyType::AllowAll.rules();
    let token = issue(expected_claims(), TokenEncoding::Ear, 1000, 300);
    assert_eq!(authorize(&b"p".to_vec(), signed(token.clone()), &allow, 1001), Ok(expected_claims()));
    assert_eq!(
        authorize(&b"p".to_vec(), Credential::Attested(token), &Policy::Malformed, 1001),
        Err(AccessError::Denied)
    );
}

#[test]
fn inline_flow_attests_then_releases() {
    let mut store = SessionStore::new(60);
    let id = store.start_session_with(nonce(), 1000);
    let policy = PolicyType::AllowAll.rules();
    let got = get_inline(
        &b"p".to_vec(),
        &mut store,
        submission(id, nonce()),
        &settings(),
        &references(),
        &policy,
        1005,
        Stored::Found(vec![7]),
    );
    assert_eq!(got, Ok(vec![7]));
    let again = get_inline(
        &b"p".to_vec(),
        &mut store,
        submission(id, nonce()),
        &settings(),
        &references(),
        &policy,
        1006,
        Stored::Found(vec![7]),
    );
    assert_eq!(again, Err(AccessError::Unauthenticated));
}

#[test]
fn credential_of_a_failed_run_is_missing() {
    let failed = Outcome { phase: Phase::Failed(FailureReason::PolicyDenied), token: None };
    assert_eq!(credential_of(failed), Credential::Missing);
    let token = issue(expected_claims(), TokenEncoding::Simple, 0, 1);
    let done = Outcome { phase: Phase::TokenIssued, token: Some(token.clone()) };
    assert_eq!(credential_of(done), Credential::Attested(token));
}

#[test]
fn verification_failures_end_the_run() {
    let policy = PolicyType::AllowAll.rules();
    let mut store = SessionStore::new(60);

    let id = store.start_session_with(nonce(), 0);
    let mut s = submission(id, nonce());
    s.runtime_data = b"{\"nonce\":\"replayed\"}".to_vec();
    let outcome = attest(&mut store, s, &settings(), &references(), &policy, 1);
    assert_eq!(
        outcome.phase,
        Phase::Failed(FailureReason::VerificationError(VerificationError::BindingMismatch))
    );
    assert_eq!(outcome.token, None);

    let id = store.start_session_with(nonce(), 0);
    let mut s = submission(id, nonce());
    s.quote = None;
    let outcome = attest(&mut store, s, &settings(), &references(), &policy, 1);
    assert_eq!(
        outcome.phase,
        Phase::Failed(FailureReason::VerificationError(VerificationError::MalformedEvidence))
    );

    let id = store.start_session_with(nonce(), 0);
    let mut s = submission(id, nonce());
    s.tee = TeeKind::Sgx;
    let outcome = attest(&mut store, s, &settings(), &references(), &policy, 1);
    assert_eq!(
        outcome.phase,
        Phase::Failed(FailureReason::VerificationError(VerificationError::UnsupportedTee))
    );

    let id = store.start_session_with(nonce(), 0);
    let mut s = submission(id, nonce());
    if let Some(q) = s.quote.as_mut() {
        q.signature_valid = false;
    }
    let outcome = attest(&mut store, s, &settings(), &references(), &policy, 1);
    assert_eq!(
        outcome.phase,
        Phase::Failed(FailureReason::VerificationError(VerificationError::SignatureFailure))
    );
}

#[test]
fn session_failures_end_the_run() {
    let policy = PolicyType::AllowAll.rules();
    let mut store = SessionStore::new(60);
    let outcome = attest(&mut store, submission(5, nonce()), &settings(), &references(), &policy, 1);
    assert_eq!(outcome.phase, Phase::Failed(FailureReason::UnknownSession));
    let id = store.start_session_with(nonce(), 0);
    let outcome = attest(&mut store, submission(id, nonce()), &settings(), &references(), &policy, 61);
    assert_eq!(outcome.phase, Phase::Failed(FailureReason::ExpiredSession));
}

#[test]
fn reference_mismatch_is_denied_where_the_policy_asks_for_a_match() {
    let policy = Policy::Active(Rules {
        allow: true,
        reference_rule: ReferenceRule::RequireMatch,
        resources: None,
    });
    let mut store = SessionStore::new(60);
    let id = store.start_session_with(nonce(), 0);
    let mut s = submission(id, nonce());
    if let Some(q) = s.quote.as_mut() {
        q.measurement = vec![1];
    }
    let outcome = attest(&mut store, s, &settings(), &references(), &policy, 1);
    assert_eq!(outcome.phase, Phase::Failed(FailureReason::PolicyDenied));
    let id = store.start_session_with(nonce(), 0);
    let outcome = attest(&mut store, submission(id, nonce()), &settings(), &references(), &policy, 1);
    assert_eq!(outcome.phase, Phase::TokenIssued);
}

#[test]
fn state_machine_walks_the_success_path() {
    let p = advance(Phase::Start, Step::NonceIssued);
    assert_eq!(p, Phase::NonceIssued);
    let p = advance(p, Step::EvidenceSubmitted(Ok(())));
    assert_eq!(p, Phase::EvidenceSubmitted);
    let p = advance(p, Step::VerifierAnswered(None));
    assert_eq!(p, Phase::Verified);
    let p = advance(p, Step::PolicyDecided(true));
    assert_eq!(p, Phase::PolicyChecked);
    let p = advance(p, Step::TokenMinted);
    assert_eq!(p, Phase::TokenIssued);
}

#[test]
fn state_machine_fails_with_the_reason() {
    assert_eq!(
        advance(Phase::NonceIssued, Step::EvidenceSubmitted(Err(SessionError::InvalidNonce))),
        Phase::Failed(FailureReason::InvalidNonce)
    );
    assert_eq!(
        advance(Phase::NonceIssued, Step::EvidenceSubmitted(Err(SessionError::ExpiredSession))),
        Phase::Failed(FailureReason::ExpiredSession)
    );
    assert_eq!(
        advance(
            Phase::EvidenceSubmitted,
            Step::VerifierAnswered(Some(VerificationError::MalformedEvidence))
        ),
        Phase::Failed(FailureReason::VerificationError(VerificationError::MalformedEvidence))
    );
    assert_eq!(
        advance(Phase::Verified, Step::PolicyDecided(false)),
        Phase::Failed(FailureReason::PolicyDenied)
    );
    assert_eq!(failure_of(SessionError::UnknownSession), FailureReason::UnknownSession);
}

#[test]
fn state_machine_ends_are_final_and_order_is_kept() {
    assert_eq!(advance(Phase::TokenIssued, Step::NonceIssued), Phase::TokenIssued);
    let failed = Phase::Failed(FailureReason::PolicyDenied);
    assert_eq!(advance(failed, Step::TokenMinted), failed);
    assert_eq!(advance(Phase::Start, Step::TokenMinted), Phase::Failed(FailureReason::OutOfOrder));
    assert_eq!(
        advance(Phase::Verified, Step::NonceIssued),
        Phase::Failed(FailureReason::OutOfOrder)
    );
}

#[test]
fn serve_answers_a_request() {
    let allow = PolicyType::AllowAll.rules();
    let token = issue(expected_claims(), TokenEncoding::Simple, 1000, 300);
    let request = ResourceRequest { resource_path: b"a/b/c".to_vec(), credential: signed(token) };
    assert_eq!(serve(request, &allow, 1001, Stored::Found(vec![4, 2])), Ok(vec![4, 2]));
    let request = ResourceRequest { resource_path: b"a/b/c".to_vec(), credential: Credential::Missing };
    assert_eq!(
        serve(request, &allow, 1001, Stored::Found(vec![4, 2])),
        Err(AccessError::Unauthenticated)
    );
}
