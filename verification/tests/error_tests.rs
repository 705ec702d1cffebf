use kbs_core::errors::ErrorKind;
use kbs_core::evidence::VerificationError;
use kbs_core::gate::AccessError;
use kbs_core::harness::PolicyType;
use kbs_core::orchestrator::FailureReason;
use kbs_core::policy::Policy;
use kbs_core::session::SessionError;
use kbs_core::token::TokenError;

#[test]
fn session_errors_keep_their_kind() {
    assert_eq!(ErrorKind::of_session(SessionError::InvalidNonce), ErrorKind::InvalidNonce);
    assert_eq!(ErrorKind::of_session(SessionError::ExpiredSession), ErrorKind::ExpiredSession);
    assert_eq!(ErrorKind::of_session(SessionError::UnknownSession), ErrorKind::UnknownSession);
}

#[test]
fn verifier_errors_keep_their_kind() {
    assert_eq!(
        ErrorKind::of_verification(VerificationError::UnsupportedTee),
        ErrorKind::UnsupportedTee
    );
    assert_eq!(
        ErrorKind::of_verification(VerificationError::MalformedEvidence),
        ErrorKind::MalformedEvidence
    );
    assert_eq!(
        ErrorKind::of_verification(VerificationError::SignatureFailure),
        ErrorKind::VerificationError
    );
    assert_eq!(
        ErrorKind::of_verification(VerificationError::BindingMismatch),
        ErrorKind::VerificationError
    );
}

#[test]
fn token_errors_keep_their_kind() {
    assert_eq!(ErrorKind::of_token(TokenError::Expired), ErrorKind::TokenExpired);
    assert_eq!(ErrorKind::of_token(TokenError::Malformed), ErrorKind::TokenMalformed);
}

#[test]
fn gate_errors_keep_their_kind() {
    assert_eq!(ErrorKind::of_access(AccessError::Unauthenticated), ErrorKind::Unauthenticated);
    assert_eq!(ErrorKind::of_access(AccessError::Denied), ErrorKind::AccessDenied);
    assert_eq!(ErrorKind::of_access(AccessError::NotFound), ErrorKind::ResourceNotFound);
    assert_eq!(ErrorKind::of_access(AccessError::RepositoryIO), ErrorKind::RepositoryIO);
}

#[test]
fn denial_under_a_malformed_policy_is_told_apart() {
    let deny = PolicyType::DenyAll.rules();
    assert_eq!(ErrorKind::of_failure(FailureReason::PolicyDenied, &deny), ErrorKind::PolicyDenied);
    assert_eq!(
        ErrorKind::of_failure(FailureReason::PolicyDenied, &Policy::Malformed),
        ErrorKind::PolicyMalformed
    );
    assert_eq!(
        ErrorKind::of_failure(FailureReason::InvalidNonce, &Policy::Malformed),
        ErrorKind::InvalidNonce
    );
    assert_eq!(
        ErrorKind::of_failure(
            FailureReason::VerificationError(VerificationError::BindingMismatch),
            &deny
        ),
        ErrorKind::VerificationError
    );
    assert_eq!(ErrorKind::of_failure(FailureReason::OutOfOrder, &deny), ErrorKind::OutOfOrder);
}
