//! The attestation orchestrator: the state machine of one session, and the
//! run that takes a submission from nonce to token.

use vstd::prelude::*;
use crate::claims::{ClaimsView, TeeKind};
use crate::evidence::{
    HashAlgorithm, Quote, QuoteView, VerificationError, digest_of, quote_view, verification,
};
use crate::policy::{Policy, PolicyView, decide};
use crate::reference::{ReferenceStore, appraised};
use crate::session::{SessionError, SessionStore, SessionView, consume_effect, consume_result};
use crate::token::{AttestationToken, TokenEncoding, TokenView, issued};

verus! {

/// Why a session failed.
#[derive(Clone, Copy, Debug, PartialEq, Eq, Structural)]
pub enum FailureReason {
    InvalidNonce,
    ExpiredSession,
    UnknownSession,
    /// The evidence verifier gave no claims.
    VerificationError(VerificationError),
    PolicyDenied,
    /// A step was reported that the session's state does not admit.
    OutOfOrder,
}

/// The states of a session.
#[derive(Clone, Copy, Debug, PartialEq, Eq, Structural)]
pub enum Phase {
    Start,
    NonceIssued,
    EvidenceSubmitted,
    Verified,
    PolicyChecked,
    /// The end, with a token.
    TokenIssued,
    /// The end, without one.
    Failed(FailureReason),
}

/// What happened in a session since its last state.
#[derive(Clone, Copy, Debug)]
pub enum Step {
    /// The session manager issued a nonce.
    NonceIssued,
    /// The client submitted evidence; holds what consuming the nonce gave.
    EvidenceSubmitted(Result<(), SessionError>),
    /// The evidence verifier answered; holds its error, if any.
    VerifierAnswered(Option<VerificationError>),
    /// The policy engine decided; holds whether it allowed.
    PolicyDecided(bool),
    /// The token broker issued a token.
    TokenMinted,
}

/// The failure that stands for a session error.
pub open spec fn session_failure(e: SessionError) -> FailureReason {
    match e {
        SessionError::InvalidNonce => FailureReason::InvalidNonce,
        SessionError::ExpiredSession => FailureReason::ExpiredSession,
        SessionError::UnknownSession => FailureReason::UnknownSession,
    }
}

/// Whether a state is an end: no step leads out of it.
pub open spec fn is_terminal(phase: Phase) -> bool {
    phase is TokenIssued || phase is Failed
}

/// The state that follows a state on a step.
pub open spec fn next_phase(phase: Phase, step: Step) -> Phase {
    match (phase, step) {
        (Phase::TokenIssued, _) => phase,
        (Phase::Failed(_), _) => phase,
        (Phase::Start, Step::NonceIssued) => Phase::NonceIssued,
        (Phase::NonceIssued, Step::EvidenceSubmitted(Ok(_))) => Phase::EvidenceSubmitted,
        (Phase::NonceIssued, Step::EvidenceSubmitted(Err(e))) => Phase::Failed(session_failure(e)),
        (Phase::EvidenceSubmitted, Step::VerifierAnswered(None)) => Phase::Verified,
        (Phase::EvidenceSubmitted, Step::VerifierAnswered(Some(e))) => Phase::Failed(
            FailureReason::VerificationError(e),
        ),
        (Phase::Verified, Step::PolicyDecided(true)) => Phase::PolicyChecked,
        (Phase::Verified, Step::PolicyDecided(false)) => Phase::Failed(FailureReason::PolicyDenied),
        (Phase::PolicyChecked, Step::TokenMinted) => Phase::TokenIssued,
        _ => Phase::Failed(FailureReason::OutOfOrder),
    }
}

/// The failure that stands for a session error.
pub fn failure_of(e: SessionError) -> (reason: FailureReason)
    ensures
        reason == session_failure(e),
{
    match e {
        SessionError::InvalidNonce => FailureReason::InvalidNonce,
        SessionError::ExpiredSession => FailureReason::ExpiredSession,
        SessionError::UnknownSession => FailureReason::UnknownSession,
    }
}

/// Moves a session on by one step. An end state stays as it is; a step
/// that the state does not admit fails the session.
pub fn advance(phase: Phase, step: Step) -> (next: Phase)
    ensures
        next == next_phase(phase, step),
{
    match phase {
        Phase::TokenIssued => phase,
        Phase::Failed(_) => phase,
        Phase::Start => match step {
            Step::NonceIssued => Phase::NonceIssued,
            _ => Phase::Failed(FailureReason::OutOfOrder),
        },
        Phase::NonceIssued => match step {
            Step::EvidenceSubmitted(Ok(_)) => Phase::EvidenceSubmitted,
            Step::EvidenceSubmitted(Err(e)) => Phase::Failed(failure_of(e)),
            _ => Phase::Failed(FailureReason::OutOfOrder),
        },
        Phase::EvidenceSubmitted => match step {
            Step::VerifierAnswered(None) => Phase::Verified,
            Step::VerifierAnswered(Some(e)) => Phase::Failed(FailureReason::VerificationError(e)),
            _ => Phase::Failed(FailureReason::OutOfOrder),
        },
        Phase::Verified => match step {
            Step::PolicyDecided(true) => Phase::PolicyChecked,
            Step::PolicyDecided(false) => Phase::Failed(FailureReason::PolicyDenied),
            _ => Phase::Failed(FailureReason::OutOfOrder),
        },
        Phase::PolicyChecked => match step {
            Step::TokenMinted => Phase::TokenIssued,
            _ => Phase::Failed(FailureReason::OutOfOrder),
        },
    }
}

/// No state is entered twice: a session at an end stays there on every step.
pub proof fn lemma_terminal_is_final(phase: Phase, step: Step)
    requires
        is_terminal(phase),
    ensures
        next_phase(phase, step) == phase,
{
}

/// What the broker is set up with for attestation.
#[derive(Clone, Debug, PartialEq, Eq)]
pub struct AttestationSettings {
    /// The hardware families with a verifier.
    pub enabled: Vec<TeeKind>,
    /// The digest under which runtime data is bound into evidence.
    pub hash_algorithm: HashAlgorithm,
    pub token_encoding: TokenEncoding,
    pub token_ttl: u64,
}

/// What a client submits, after the hardware family's parser has read it.
#[derive(Clone, Debug, PartialEq, Eq)]
pub struct Submission {
    pub session_id: u64,
    pub nonce: Vec<u8>,
    pub tee: TeeKind,
    /// `None` where the evidence could not be parsed.
    pub quote: Option<Quote>,
    /// The runtime data that the evidence is bound to: the nonce and the
    /// client's key, as the client's hardware digested them.
    pub runtime_data: Vec<u8>,
}

/// How a run ended.
#[derive(Clone, Debug, PartialEq, Eq)]
pub struct Outcome {
    pub phase: Phase,
    /// The unsigned token, where the run reached `TokenIssued`.
    pub token: Option<AttestationToken>,
}

/// The claims that a submission earns once its nonce was accepted.
pub open spec fn earned_claims(
    tee: TeeKind,
    quote: Option<QuoteView>,
    runtime_digest: Seq<u8>,
    enabled: Seq<TeeKind>,
    alg: HashAlgorithm,
    references: Seq<(TeeKind, Seq<u8>)>,
) -> Result<ClaimsView, VerificationError> {
    match verification(tee, enabled, quote, runtime_digest, alg) {
        Ok(c) => Ok(appraised(c, references)),
        Err(e) => Err(e),
    }
}

/// The state in which a run ends.
pub open spec fn run_phase(
    consumed: Result<(), SessionError>,
    claims: Result<ClaimsView, VerificationError>,
    policy: PolicyView,
) -> Phase {
    match consumed {
        Err(e) => Phase::Failed(session_failure(e)),
        Ok(_) => match claims {
            Err(e) => Phase::Failed(FailureReason::VerificationError(e)),
            Ok(c) => if decide(c, policy).allowed {
                Phase::TokenIssued
            } else {
                Phase::Failed(FailureReason::PolicyDenied)
            },
        },
    }
}

/// The unsigned token with which a run ends, if it ends with one.
pub open spec fn run_token(
    consumed: Result<(), SessionError>,
    claims: Result<ClaimsView, VerificationError>,
    policy: PolicyView,
    encoding: TokenEncoding,
    now: u64,
    ttl: u64,
) -> Option<TokenView> {
    match (consumed, claims) {
        (Ok(_), Ok(c)) => if decide(c, policy).allowed {
            Some(issued(c, encoding, now, ttl))
        } else {
            None
        },
        _ => None,
    }
}

/// The view of an optional token.
pub open spec fn token_view(token: Option<AttestationToken>) -> Option<TokenView> {
    match token {
        Some(t) => Some(t@),
        None => None,
    }
}

/// Takes a submission through a session whose nonce was issued: consumes
/// the nonce, verifies the evidence, merges the reference values, asks the
/// policy and issues the token. The nonce is used up whatever follows, and
/// a token is given in `TokenIssued` and nowhere else.
pub fn attest(
    store: &mut SessionStore,
    submission: Submission,
    settings: &AttestationSettings,
    references: &ReferenceStore,
    policy: &Policy,
    now: u64,
) -> (outcome: Outcome)
    requires
        old(store).wf(),
    ensures
        final(store).wf(),
        final(store)@.sessions == consume_effect(old(store)@.sessions, submission.session_id, now),
        final(store)@.next_id == old(store)@.next_id,
        final(store)@.floor == old(store)@.floor,
        final(store)@.ttl == old(store)@.ttl,
        outcome.phase == run_phase(
            consume_result(old(store)@.sessions, submission.session_id, submission.nonce@, now),
            earned_claims(
                submission.tee,
                quote_view(submission.quote),
                digest_of(settings.hash_algorithm, submission.runtime_data@),
                settings.enabled@,
                settings.hash_algorithm,
                references@,
            ),
            policy@,
        ),
        token_view(outcome.token) == run_token(
            consume_result(old(store)@.sessions, submission.session_id, submission.nonce@, now),
            earned_claims(
                submission.tee,
                quote_view(submission.quote),
                digest_of(settings.hash_algorithm, submission.runtime_data@),
                settings.enabled@,
                settings.hash_algorithm,
                references@,
            ),
            policy@,
            settings.token_encoding,
            now,
            settings.token_ttl,
        ),
{
    let phase = advance(Phase::Start, Step::NonceIssued);
    let consumed = store.consume(submission.session_id, &submission.nonce, now);
    let phase = advance(phase, Step::EvidenceSubmitted(consumed));
    if consumed.is_err() {
        return Outcome { phase, token: None };
    }
    let verified = crate::evidence::verify(
        submission.tee,
        &settings.enabled,
        submission.quote,
        &submission.runtime_data,
        settings.hash_algorithm,
    );
    match verified {
        Err(e) => {
            let phase = advance(phase, Step::VerifierAnswered(Some(e)));
            Outcome { phase, token: None }
        },
        Ok(claims) => {
            let phase = advance(phase, Step::VerifierAnswered(None));
            let claims = references.appraise(claims);
            let decision = crate::policy::evaluate(&claims, policy);
            let phase = advance(phase, Step::PolicyDecided(decision.allowed));
            if !decision.allowed {
                return Outcome { phase, token: None };
            }
            let token = crate::token::issue(
                claims,
                settings.token_encoding,
                now,
                settings.token_ttl,
            );
            let phase = advance(phase, Step::TokenMinted);
            Outcome { phase, token: Some(token) }
        },
    }
}

/// A run ends with a token in `TokenIssued` and nowhere else, and it gets
/// there only where the nonce was accepted, the evidence gave claims and
/// the policy allowed them; the token then holds those very claims.
pub proof fn lemma_token_needs_every_step(
    consumed: Result<(), SessionError>,
    claims: Result<ClaimsView, VerificationError>,
    policy: PolicyView,
    encoding: TokenEncoding,
    now: u64,
    ttl: u64,
)
    ensures
        run_phase(consumed, claims, policy) == Phase::TokenIssued <==> run_token(
            consumed,
            claims,
            policy,
            encoding,
            now,
            ttl,
        ) is Some,
        run_token(consumed, claims, policy, encoding, now, ttl) is Some ==> consumed is Ok
            && claims is Ok && decide(claims->Ok_0, policy).allowed && run_token(
            consumed,
            claims,
            policy,
            encoding,
            now,
            ttl,
        )->Some_0.claims == claims->Ok_0,
{
}

/// A session cannot be used again: once a run was made on a session,
/// whatever it presented and however it ended, no later run on that
/// session ends with a token.
pub proof fn lemma_session_cannot_be_reused(
    sessions: Map<u64, SessionView>,
    id: u64,
    first_at: u64,
    nonce: Seq<u8>,
    later: u64,
    claims: Result<ClaimsView, VerificationError>,
    policy: PolicyView,
    encoding: TokenEncoding,
    ttl: u64,
)
    ensures
        run_phase(
            consume_result(consume_effect(sessions, id, first_at), id, nonce, later),
            claims,
            policy,
        ) is Failed,
        run_token(
            consume_result(consume_effect(sessions, id, first_at), id, nonce, later),
            claims,
            policy,
            encoding,
            later,
            ttl,
        ) is None,
{
}

} // verus!
