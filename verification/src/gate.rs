//! The resource access gate: who gets which resource.

use vstd::prelude::*;
use crate::claims::{Claims, ClaimsView};
use crate::evidence::claims_result_view;
use crate::orchestrator::{
    AttestationSettings, Outcome, Submission, attest, earned_claims, run_token, token_view,
};
use crate::evidence::{digest_of, quote_view};
use crate::policy::{Policy, PolicyView, decide, permits};
use crate::reference::ReferenceStore;
use crate::session::{SessionStore, consume_effect, consume_result};
use crate::token::{AttestationToken, TokenError, TokenView, checked};

verus! {

/// Why a resource was not released.
#[derive(Clone, Copy, Debug, PartialEq, Eq, Structural)]
pub enum AccessError {
    /// No credential, or one that does not hold or has expired.
    Unauthenticated,
    /// The active policy does not release the resource to these claims.
    Denied,
    /// The repository holds nothing at the path.
    NotFound,
    /// The repository failed.
    RepositoryIO,
}

/// What a caller presents to get a resource.
#[derive(Clone, Debug, PartialEq, Eq)]
pub enum Credential {
    /// Nothing.
    Missing,
    /// A token issued earlier, with what the signature scheme said of its
    /// signature.
    Token { token: AttestationToken, signature_valid: bool },
    /// The token of an attestation run made for this very request.
    Attested(AttestationToken),
}

/// The mathematical content of a credential.
pub enum CredentialView {
    Missing,
    Token { token: TokenView, signature_valid: bool },
    Attested(TokenView),
}

impl View for Credential {
    type V = CredentialView;

    open spec fn view(&self) -> CredentialView {
        match self {
            Credential::Missing => CredentialView::Missing,
            Credential::Token { token, signature_valid } => CredentialView::Token {
                token: token@,
                signature_valid: *signature_valid,
            },
            Credential::Attested(token) => CredentialView::Attested(token@),
        }
    }
}

/// What the repository answered for a path.
#[derive(Clone, Debug, PartialEq, Eq)]
pub enum Stored {
    Found(Vec<u8>),
    Absent,
    Failed,
}

/// The mathematical content of a repository's answer.
pub enum StoredView {
    Found(Seq<u8>),
    Absent,
    Failed,
}

impl View for Stored {
    type V = StoredView;

    open spec fn view(&self) -> StoredView {
        match self {
            Stored::Found(bytes) => StoredView::Found(bytes@),
            Stored::Absent => StoredView::Absent,
            Stored::Failed => StoredView::Failed,
        }
    }
}

/// The claims that a credential stands for at `now`.
pub open spec fn authenticated(credential: CredentialView, now: u64) -> Result<
    ClaimsView,
    TokenError,
> {
    match credential {
        CredentialView::Missing => Err(TokenError::Malformed),
        CredentialView::Token { token, signature_valid } => checked(token, signature_valid, now),
        CredentialView::Attested(token) => checked(token, true, now),
    }
}

/// Whether the credential may have the resource under the active policy.
pub open spec fn authorization(
    path: Seq<u8>,
    credential: CredentialView,
    policy: PolicyView,
    now: u64,
) -> Result<ClaimsView, AccessError> {
    match authenticated(credential, now) {
        Err(_) => Err(AccessError::Unauthenticated),
        Ok(claims) => if permits(decide(claims, policy), path) {
            Ok(claims)
        } else {
            Err(AccessError::Denied)
        },
    }
}

/// What a request for a resource is answered with.
pub open spec fn release(
    path: Seq<u8>,
    credential: CredentialView,
    policy: PolicyView,
    now: u64,
    stored: StoredView,
) -> Result<Seq<u8>, AccessError> {
    match authorization(path, credential, policy, now) {
        Err(e) => Err(e),
        Ok(_) => match stored {
            StoredView::Found(bytes) => Ok(bytes),
            StoredView::Absent => Err(AccessError::NotFound),
            StoredView::Failed => Err(AccessError::RepositoryIO),
        },
    }
}

/// The view of a released payload.
pub open spec fn payload_view(r: Result<Vec<u8>, AccessError>) -> Result<Seq<u8>, AccessError> {
    match r {
        Ok(bytes) => Ok(bytes@),
        Err(e) => Err(e),
    }
}

/// Checks the credential, then the active policy for this very path, and
/// gives the claims to which the resource may be released. Made before the
/// repository is asked.
pub fn authorize(path: &Vec<u8>, credential: Credential, policy: &Policy, now: u64) -> (result:
    Result<Claims, AccessError>)
    ensures
        claims_result_view(result) == authorization(path@, credential@, policy@, now),
{
    let checked = match credential {
        Credential::Missing => Err(TokenError::Malformed),
        Credential::Token { token, signature_valid } => crate::token::verify(
            token,
            signature_valid,
            now,
        ),
        Credential::Attested(token) => crate::token::verify(token, true, now),
    };
    match checked {
        Err(_) => Err(AccessError::Unauthenticated),
        Ok(claims) => {
            let decision = crate::policy::evaluate(&claims, policy);
            if decision.permits(path) {
                Ok(claims)
            } else {
                Err(AccessError::Denied)
            }
        },
    }
}

/// Answers a request for the resource at `path`, given what the repository
/// holds there. The credential is checked first, the active policy second,
/// and only then does the repository's answer count.
pub fn get(path: &Vec<u8>, credential: Credential, policy: &Policy, now: u64, stored: Stored) -> (result:
    Result<Vec<u8>, AccessError>)
    ensures
        payload_view(result) == release(path@, credential@, policy@, now, stored@),
{
    match authorize(path, credential, policy, now) {
        Err(e) => Err(e),
        Ok(_) => match stored {
            Stored::Found(bytes) => Ok(bytes),
            Stored::Absent => Err(AccessError::NotFound),
            Stored::Failed => Err(AccessError::RepositoryIO),
        },
    }
}

/// One request for a resource.
#[derive(Clone, Debug, PartialEq, Eq)]
pub struct ResourceRequest {
    pub resource_path: Vec<u8>,
    pub credential: Credential,
}

/// Answers a request, given what the repository holds at its path.
pub fn serve(request: ResourceRequest, policy: &Policy, now: u64, stored: Stored) -> (result:
    Result<Vec<u8>, AccessError>)
    ensures
        payload_view(result) == release(
            request.resource_path@,
            request.credential@,
            policy@,
            now,
            stored@,
        ),
{
    get(&request.resource_path, request.credential, policy, now, stored)
}

/// The credential that a run of attestation leaves: its token, or nothing.
pub open spec fn inline_credential(token: Option<TokenView>) -> CredentialView {
    match token {
        Some(t) => CredentialView::Attested(t),
        None => CredentialView::Missing,
    }
}

/// The credential that a run of attestation leaves: its token, or nothing.
pub fn credential_of(outcome: Outcome) -> (credential: Credential)
    ensures
        credential@ == inline_credential(token_view(outcome.token)),
{
    match outcome.token {
        Some(token) => Credential::Attested(token),
        None => Credential::Missing,
    }
}

/// Answers a request that brings its evidence along: the submission runs
/// through attestation first, and what that leaves is the credential. The
/// nonce is used up whatever the answer.
pub fn get_inline(
    path: &Vec<u8>,
    store: &mut SessionStore,
    submission: Submission,
    settings: &AttestationSettings,
    references: &ReferenceStore,
    policy: &Policy,
    now: u64,
    stored: Stored,
) -> (result: Result<Vec<u8>, AccessError>)
    requires
        old(store).wf(),
    ensures
        final(store).wf(),
        final(store)@.sessions == consume_effect(old(store)@.sessions, submission.session_id, now),
        final(store)@.next_id == old(store)@.next_id,
        final(store)@.floor == old(store)@.floor,
        final(store)@.ttl == old(store)@.ttl,
        payload_view(result) == release(
            path@,
            inline_credential(
                run_token(
                    consume_result(
                        old(store)@.sessions,
                        submission.session_id,
                        submission.nonce@,
                        now,
                    ),
                    earned_claims(
                        submission.tee,
                        quote_view(submission.quote),
                        digest_of(settings.hash_algorithm, submission.runtime_data@),
                        settings.enabled@,
                        settings.hash_algorithm,
                        references@,
                    ),
                    policy@,
                    settings.token_encoding,
                    now,
                    settings.token_ttl,
                ),
            ),
            policy@,
            now,
            stored@,
        ),
{
    let outcome = attest(store, submission, settings, references, policy, now);
    get(path, credential_of(outcome), policy, now, stored)
}

/// The policy that counts is the active one: a token that holds, under a
/// policy that does not release the path, is denied, whatever the policy
/// was when the token was issued and whatever the repository holds.
pub proof fn lemma_active_policy_decides(
    path: Seq<u8>,
    token: TokenView,
    now: u64,
    active: PolicyView,
    stored: StoredView,
)
    requires
        checked(token, true, now) is Ok,
        !permits(decide(token.claims, active), path),
    ensures
        release(
            path,
            CredentialView::Token { token, signature_valid: true },
            active,
            now,
            stored,
        ) == Err::<Seq<u8>, AccessError>(AccessError::Denied),
{
}

/// What the repository holds shows only to those who are let in: the
/// answer is `NotFound` only where the credential holds and the policy
/// releases the path, and a caller who is turned away learns nothing of
/// the repository.
pub proof fn lemma_not_found_only_after_authorization(
    path: Seq<u8>,
    credential: CredentialView,
    policy: PolicyView,
    now: u64,
    stored: StoredView,
    other: StoredView,
)
    ensures
        release(path, credential, policy, now, stored) == Err::<Seq<u8>, AccessError>(
            AccessError::NotFound,
        ) ==> authorization(path, credential, policy, now) is Ok && stored is Absent,
        authorization(path, credential, policy, now) is Err ==> release(
            path,
            credential,
            policy,
            now,
            stored,
        ) == release(path, credential, policy, now, other),
{
}

} // verus!
