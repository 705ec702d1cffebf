//! The token broker: attestation tokens, their issue and their check.

use vstd::prelude::*;
use crate::claims::{Claims, ClaimsView, ReferenceStatus};
use crate::evidence::claims_result_view;

verus! {

/// The two encodings of a token.
#[derive(Clone, Copy, Debug, PartialEq, Eq, Structural)]
pub enum TokenEncoding {
    /// The signed claims and nothing more.
    Simple,
    /// The signed claims with the verifier's appraisal beside them.
    Ear,
}

/// The verifier's appraisal that an extended token carries.
#[derive(Clone, Copy, Debug, PartialEq, Eq, Structural)]
pub enum TrustTier {
    /// No reference value was on record.
    Unverified,
    /// The measurement equals the reference value.
    Affirming,
    /// The measurement differs from the reference value.
    Contraindicated,
}

/// A time-bounded credential that stands for verified claims.
#[derive(Clone, Debug, PartialEq, Eq)]
pub struct AttestationToken {
    pub encoding: TokenEncoding,
    pub claims: Claims,
    pub issued_at: u64,
    pub expires_at: u64,
    /// Present in the extended encoding, and only there.
    pub appraisal: Option<TrustTier>,
    pub signature: Vec<u8>,
}

/// The mathematical content of a token.
pub struct TokenView {
    pub encoding: TokenEncoding,
    pub claims: ClaimsView,
    pub issued_at: u64,
    pub expires_at: u64,
    pub appraisal: Option<TrustTier>,
    pub signature: Seq<u8>,
}

impl View for AttestationToken {
    type V = TokenView;

    open spec fn view(&self) -> TokenView {
        TokenView {
            encoding: self.encoding,
            claims: self.claims@,
            issued_at: self.issued_at,
            expires_at: self.expires_at,
            appraisal: self.appraisal,
            signature: self.signature@,
        }
    }
}

/// Why a token yields no claims.
#[derive(Clone, Copy, Debug, PartialEq, Eq, Structural)]
pub enum TokenError {
    /// The token's time is over.
    Expired,
    /// The token is not of the shape of its encoding, or its signature does
    /// not hold.
    Malformed,
}

/// The appraisal that stands for a comparison outcome.
pub open spec fn tier_of(status: ReferenceStatus) -> TrustTier {
    match status {
        ReferenceStatus::Unknown => TrustTier::Unverified,
        ReferenceStatus::Matched => TrustTier::Affirming,
        ReferenceStatus::Mismatched => TrustTier::Contraindicated,
    }
}

/// The appraisal that a token of an encoding carries for given claims.
pub open spec fn appraisal_for(encoding: TokenEncoding, claims: ClaimsView) -> Option<TrustTier> {
    match encoding {
        TokenEncoding::Simple => None,
        TokenEncoding::Ear => Some(tier_of(claims.reference)),
    }
}

/// The end of a token's time: `ttl` after `now`, or the end of time where
/// that lies beyond it.
pub open spec fn expiry(now: u64, ttl: u64) -> u64 {
    if now + ttl > u64::MAX {
        u64::MAX
    } else {
        (now + ttl) as u64
    }
}

/// The token that is issued for claims, before it is signed.
pub open spec fn issued(claims: ClaimsView, encoding: TokenEncoding, now: u64, ttl: u64) -> TokenView {
    TokenView {
        encoding,
        claims,
        issued_at: now,
        expires_at: expiry(now, ttl),
        appraisal: appraisal_for(encoding, claims),
        signature: Seq::<u8>::empty(),
    }
}

/// Whether a token has the shape of its encoding.
pub open spec fn well_formed(token: TokenView) -> bool {
    token.issued_at <= token.expires_at && token.appraisal == appraisal_for(
        token.encoding,
        token.claims,
    )
}

/// What the check of a token yields, given whether its signature holds.
pub open spec fn checked(token: TokenView, signature_valid: bool, now: u64) -> Result<
    ClaimsView,
    TokenError,
> {
    if !well_formed(token) || !signature_valid {
        Err(TokenError::Malformed)
    } else if token.expires_at < now {
        Err(TokenError::Expired)
    } else {
        Ok(token.claims)
    }
}

/// The appraisal that stands for a comparison outcome.
pub fn trust_tier(status: ReferenceStatus) -> (tier: TrustTier)
    ensures
        tier == tier_of(status),
{
    match status {
        ReferenceStatus::Unknown => TrustTier::Unverified,
        ReferenceStatus::Matched => TrustTier::Affirming,
        ReferenceStatus::Mismatched => TrustTier::Contraindicated,
    }
}

/// Issues an unsigned token for the claims, valid from `now` for `ttl`.
/// The caller signs it and sets `signature`.
pub fn issue(claims: Claims, encoding: TokenEncoding, now: u64, ttl: u64) -> (token:
    AttestationToken)
    ensures
        token@ == issued(claims@, encoding, now, ttl),
{
    let appraisal = match encoding {
        TokenEncoding::Simple => None,
        TokenEncoding::Ear => Some(trust_tier(claims.reference)),
    };
    let expires_at = if ttl > u64::MAX - now {
        u64::MAX
    } else {
        now + ttl
    };
    AttestationToken {
        encoding,
        claims,
        issued_at: now,
        expires_at,
        appraisal,
        signature: Vec::new(),
    }
}

/// Checks a token and gives its claims. `signature_valid` is what the
/// signature scheme said of the token's signature. Attestation is not run
/// again: shape, signature and time decide.
pub fn verify(token: AttestationToken, signature_valid: bool, now: u64) -> (result: Result<
    Claims,
    TokenError,
>)
    ensures
        claims_result_view(result) == checked(token@, signature_valid, now),
{
    let shaped = token.issued_at <= token.expires_at && match token.encoding {
        TokenEncoding::Simple => token.appraisal.is_none(),
        TokenEncoding::Ear => match token.appraisal {
            Some(tier) => tier == trust_tier(token.claims.reference),
            None => false,
        },
    };
    if !shaped || !signature_valid {
        Err(TokenError::Malformed)
    } else if token.expires_at < now {
        Err(TokenError::Expired)
    } else {
        Ok(token.claims)
    }
}

/// A token that was issued and signed gives its claims back unchanged
/// until its time is over, and is expired from then on.
pub proof fn lemma_issue_verify_round_trip(
    claims: ClaimsView,
    encoding: TokenEncoding,
    issued_at: u64,
    ttl: u64,
    signature: Seq<u8>,
    now: u64,
)
    ensures
        now <= issued_at + ttl ==> checked(
            TokenView { signature, ..issued(claims, encoding, issued_at, ttl) },
            true,
            now,
        ) == Ok::<ClaimsView, TokenError>(claims),
        now > issued_at + ttl ==> checked(
            TokenView { signature, ..issued(claims, encoding, issued_at, ttl) },
            true,
            now,
        ) == Err::<ClaimsView, TokenError>(TokenError::Expired),
{
}

/// A token whose signature does not hold gives no claims, whatever else
/// it says.
pub proof fn lemma_unsigned_token_rejected(token: TokenView, now: u64)
    ensures
        checked(token, false, now) == Err::<ClaimsView, TokenError>(TokenError::Malformed),
{
}

} // verus!
