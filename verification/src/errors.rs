//! The kinds of error that the broker tells apart towards its callers.

use vstd::prelude::*;
use crate::evidence::VerificationError;
use crate::gate::AccessError;
use crate::orchestrator::FailureReason;
use crate::policy::{Policy, PolicyView};
use crate::session::SessionError;
use crate::token::TokenError;

verus! {

/// Every kind of error that leaves the core. The transport maps each to
/// its own answer.
#[derive(Clone, Copy, Debug, PartialEq, Eq, Structural)]
pub enum ErrorKind {
    InvalidNonce,
    ExpiredSession,
    UnknownSession,
    UnsupportedTee,
    MalformedEvidence,
    VerificationError,
    PolicyDenied,
    PolicyMalformed,
    TokenExpired,
    TokenMalformed,
    AccessDenied,
    ResourceNotFound,
    RepositoryIO,
    /// No credential was presented, or none that holds.
    Unauthenticated,
    /// A step was reported that the session's state does not admit.
    OutOfOrder,
}

/// The kind of a session error.
pub open spec fn session_kind(e: SessionError) -> ErrorKind {
    match e {
        SessionError::InvalidNonce => ErrorKind::InvalidNonce,
        SessionError::ExpiredSession => ErrorKind::ExpiredSession,
        SessionError::UnknownSession => ErrorKind::UnknownSession,
    }
}

/// The kind of a verifier's error: a broken binding and a broken signature
/// are both verification errors.
pub open spec fn verification_kind(e: VerificationError) -> ErrorKind {
    match e {
        VerificationError::UnsupportedTee => ErrorKind::UnsupportedTee,
        VerificationError::MalformedEvidence => ErrorKind::MalformedEvidence,
        VerificationError::SignatureFailure => ErrorKind::VerificationError,
        VerificationError::BindingMismatch => ErrorKind::VerificationError,
    }
}

/// The kind of a token error.
pub open spec fn token_kind(e: TokenError) -> ErrorKind {
    match e {
        TokenError::Expired => ErrorKind::TokenExpired,
        TokenError::Malformed => ErrorKind::TokenMalformed,
    }
}

/// The kind of a denial under a policy: a policy that could not be read
/// denies as malformed.
pub open spec fn denial_kind(policy: PolicyView) -> ErrorKind {
    match policy {
        PolicyView::Malformed => ErrorKind::PolicyMalformed,
        _ => ErrorKind::PolicyDenied,
    }
}

/// The kind of a session's failure under the policy that was asked.
pub open spec fn failure_kind(reason: FailureReason, policy: PolicyView) -> ErrorKind {
    match reason {
        FailureReason::InvalidNonce => ErrorKind::InvalidNonce,
        FailureReason::ExpiredSession => ErrorKind::ExpiredSession,
        FailureReason::UnknownSession => ErrorKind::UnknownSession,
        FailureReason::VerificationError(e) => verification_kind(e),
        FailureReason::PolicyDenied => denial_kind(policy),
        FailureReason::OutOfOrder => ErrorKind::OutOfOrder,
    }
}

/// The kind of a refusal of a resource.
pub open spec fn access_kind(e: AccessError) -> ErrorKind {
    match e {
        AccessError::Unauthenticated => ErrorKind::Unauthenticated,
        AccessError::Denied => ErrorKind::AccessDenied,
        AccessError::NotFound => ErrorKind::ResourceNotFound,
        AccessError::RepositoryIO => ErrorKind::RepositoryIO,
    }
}

impl ErrorKind {
    /// The kind of a session error.
    pub fn of_session(e: SessionError) -> (kind: ErrorKind)
        ensures
            kind == session_kind(e),
    {
        match e {
            SessionError::InvalidNonce => ErrorKind::InvalidNonce,
            SessionError::ExpiredSession => ErrorKind::ExpiredSession,
            SessionError::UnknownSession => ErrorKind::UnknownSession,
        }
    }

    /// The kind of a verifier's error.
    pub fn of_verification(e: VerificationError) -> (kind: ErrorKind)
        ensures
            kind == verification_kind(e),
    {
        match e {
            VerificationError::UnsupportedTee => ErrorKind::UnsupportedTee,
            VerificationError::MalformedEvidence => ErrorKind::MalformedEvidence,
            VerificationError::SignatureFailure => ErrorKind::VerificationError,
            VerificationError::BindingMismatch => ErrorKind::VerificationError,
        }
    }

    /// The kind of a token error.
    pub fn of_token(e: TokenError) -> (kind: ErrorKind)
        ensures
            kind == token_kind(e),
    {
        match e {
            TokenError::Expired => ErrorKind::TokenExpired,
            TokenError::Malformed => ErrorKind::TokenMalformed,
        }
    }

    /// The kind of a session's failure under the policy that was asked.
    pub fn of_failure(reason: FailureReason, policy: &Policy) -> (kind: ErrorKind)
        ensures
            kind == failure_kind(reason, policy@),
    {
        match reason {
            FailureReason::InvalidNonce => ErrorKind::InvalidNonce,
            FailureReason::ExpiredSession => ErrorKind::ExpiredSession,
            FailureReason::UnknownSession => ErrorKind::UnknownSession,
            FailureReason::VerificationError(e) => ErrorKind::of_verification(e),
            FailureReason::PolicyDenied => match policy {
                Policy::Malformed => ErrorKind::PolicyMalformed,
                Policy::Active(_) => ErrorKind::PolicyDenied,
            },
            FailureReason::OutOfOrder => ErrorKind::OutOfOrder,
        }
    }

    /// The kind of a refusal of a resource.
    pub fn of_access(e: AccessError) -> (kind: ErrorKind)
        ensures
            kind == access_kind(e),
    {
        match e {
            AccessError::Unauthenticated => ErrorKind::Unauthenticated,
            AccessError::Denied => ErrorKind::AccessDenied,
            AccessError::NotFound => ErrorKind::ResourceNotFound,
            AccessError::RepositoryIO => ErrorKind::RepositoryIO,
        }
    }
}

/// Errors that differ keep kinds that differ, for resources and in the
/// session store: a caller can tell from the kind what went wrong.
pub proof fn lemma_kinds_are_kept_apart(
    a: AccessError,
    b: AccessError,
    s: SessionError,
    t: SessionError,
    x: TokenError,
    y: TokenError,
)
    ensures
        a != b ==> access_kind(a) != access_kind(b),
        s != t ==> session_kind(s) != session_kind(t),
        x != y ==> token_kind(x) != token_kind(y),
        access_kind(a) != session_kind(s),
        access_kind(a) != token_kind(x),
        session_kind(s) != token_kind(x),
{
}

} // verus!
