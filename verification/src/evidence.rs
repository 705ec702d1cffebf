//! The evidence verifier: from what a hardware family's parser found in a
//! piece of evidence to claims, or to the reason why none are given.

use vstd::prelude::*;
use crate::bytes::bytes_eq;
use crate::claims::{Claim, Claims, ClaimsView, ReferenceStatus, TeeKind, entries_view};

verus! {

/// The digest under which runtime data is bound into evidence.
#[derive(Clone, Copy, Debug, PartialEq, Eq, Structural)]
pub enum HashAlgorithm {
    Sha256,
    Sha384,
    Sha512,
}

impl HashAlgorithm {
    /// The length of a digest in bytes.
    pub open spec fn spec_digest_len(self) -> nat {
        match self {
            HashAlgorithm::Sha256 => 32,
            HashAlgorithm::Sha384 => 48,
            HashAlgorithm::Sha512 => 64,
        }
    }

    /// The length of a digest in bytes.
    pub fn digest_len(self) -> (n: usize)
        ensures
            n == self.spec_digest_len(),
    {
        match self {
            HashAlgorithm::Sha256 => 32,
            HashAlgorithm::Sha384 => 48,
            HashAlgorithm::Sha512 => 64,
        }
    }
}

/// The SHA-256 digest of a byte string.
pub uninterp spec fn sha256_of(data: Seq<u8>) -> Seq<u8>;

/// The SHA-384 digest of a byte string.
pub uninterp spec fn sha384_of(data: Seq<u8>) -> Seq<u8>;

/// The SHA-512 digest of a byte string.
pub uninterp spec fn sha512_of(data: Seq<u8>) -> Seq<u8>;

/// Calls `openssl::sha::sha256`. The contract names the digest and claims
/// its length, which is that of the array that the call returns.
#[verifier::external_body]
fn sha256(data: &Vec<u8>) -> (digest: Vec<u8>)
    ensures
        digest@ == sha256_of(data@),
        digest@.len() == 32,
{
    openssl::sha::sha256(data.as_slice()).to_vec()
}

/// Calls `openssl::sha::sha384`. The contract names the digest and claims
/// its length, which is that of the array that the call returns.
#[verifier::external_body]
fn sha384(data: &Vec<u8>) -> (digest: Vec<u8>)
    ensures
        digest@ == sha384_of(data@),
        digest@.len() == 48,
{
    openssl::sha::sha384(data.as_slice()).to_vec()
}

/// Calls `openssl::sha::sha512`. The contract names the digest and claims
/// its length, which is that of the array that the call returns.
#[verifier::external_body]
fn sha512(data: &Vec<u8>) -> (digest: Vec<u8>)
    ensures
        digest@ == sha512_of(data@),
        digest@.len() == 64,
{
    openssl::sha::sha512(data.as_slice()).to_vec()
}

/// The digest of a byte string under an algorithm.
pub open spec fn digest_of(alg: HashAlgorithm, data: Seq<u8>) -> Seq<u8> {
    match alg {
        HashAlgorithm::Sha256 => sha256_of(data),
        HashAlgorithm::Sha384 => sha384_of(data),
        HashAlgorithm::Sha512 => sha512_of(data),
    }
}

/// The digest of runtime data under the agreed algorithm.
pub fn runtime_digest(alg: HashAlgorithm, data: &Vec<u8>) -> (digest: Vec<u8>)
    ensures
        digest@ == digest_of(alg, data@),
        digest@.len() == alg.spec_digest_len(),
{
    match alg {
        HashAlgorithm::Sha256 => sha256(data),
        HashAlgorithm::Sha384 => sha384(data),
        HashAlgorithm::Sha512 => sha512(data),
    }
}

/// What a hardware family's parser read out of well-formed evidence.
#[derive(Clone, Debug, PartialEq, Eq)]
pub struct Quote {
    /// Whether the chain up to the vendor's root of trust checked out.
    pub signature_valid: bool,
    /// The runtime-data digest that the hardware embedded.
    pub report_data: Vec<u8>,
    pub measurement: Vec<u8>,
    pub entries: Vec<Claim>,
}

/// The mathematical content of a quote.
pub struct QuoteView {
    pub signature_valid: bool,
    pub report_data: Seq<u8>,
    pub measurement: Seq<u8>,
    pub entries: Seq<(Seq<u8>, Seq<u8>)>,
}

impl View for Quote {
    type V = QuoteView;

    open spec fn view(&self) -> QuoteView {
        QuoteView {
            signature_valid: self.signature_valid,
            report_data: self.report_data@,
            measurement: self.measurement@,
            entries: entries_view(self.entries),
        }
    }
}

/// Why evidence yielded no claims.
#[derive(Clone, Copy, Debug, PartialEq, Eq, Structural)]
pub enum VerificationError {
    /// No verifier is enabled for the hardware family.
    UnsupportedTee,
    /// The evidence could not be parsed.
    MalformedEvidence,
    /// The evidence's chain of signatures does not hold.
    SignatureFailure,
    /// The digest embedded in the evidence is not that of the runtime data.
    BindingMismatch,
}

/// The view of an optional quote.
pub open spec fn quote_view(quote: Option<Quote>) -> Option<QuoteView> {
    match quote {
        Some(q) => Some(q@),
        None => None,
    }
}

/// Whether the evidence is bound to the runtime data: the embedded digest
/// is the expected one, and has the length of the agreed algorithm.
pub open spec fn bound_to(q: QuoteView, expected_digest: Seq<u8>, alg: HashAlgorithm) -> bool {
    expected_digest.len() == alg.spec_digest_len() && q.report_data == expected_digest
}

/// What verification yields.
pub open spec fn verification(
    tee: TeeKind,
    enabled: Seq<TeeKind>,
    quote: Option<QuoteView>,
    expected_digest: Seq<u8>,
    alg: HashAlgorithm,
) -> Result<ClaimsView, VerificationError> {
    if !enabled.contains(tee) {
        Err(VerificationError::UnsupportedTee)
    } else {
        match quote {
            None => Err(VerificationError::MalformedEvidence),
            Some(q) => if !q.signature_valid {
                Err(VerificationError::SignatureFailure)
            } else if !bound_to(q, expected_digest, alg) {
                Err(VerificationError::BindingMismatch)
            } else {
                Ok(
                    ClaimsView {
                        tee,
                        measurement: q.measurement,
                        entries: q.entries,
                        reference: ReferenceStatus::Unknown,
                    },
                )
            },
        }
    }
}

/// The view of a verification result.
pub open spec fn claims_result_view<E>(r: Result<Claims, E>) -> Result<ClaimsView, E> {
    match r {
        Ok(c) => Ok(c@),
        Err(e) => Err(e),
    }
}

/// Whether a hardware family is among the enabled ones.
pub fn is_enabled(enabled: &Vec<TeeKind>, tee: TeeKind) -> (found: bool)
    ensures
        found == enabled@.contains(tee),
{
    let mut i: usize = 0;
    while i < enabled.len()
        invariant
            i <= enabled.len(),
            forall|j: int| 0 <= j < i ==> enabled@[j] != tee,
        decreases enabled.len() - i,
    {
        if enabled[i] == tee {
            return true;
        }
        i += 1;
    }
    false
}

/// Turns what the hardware family's parser found into claims, given the
/// digest that the evidence has to embed.
///
/// `quote` is `None` where the evidence could not be parsed. No claims are
/// given unless the family is enabled, the evidence's own signature holds
/// and the embedded digest is the expected one.
pub fn verify_against(
    tee: TeeKind,
    enabled: &Vec<TeeKind>,
    quote: Option<Quote>,
    expected_digest: &Vec<u8>,
    alg: HashAlgorithm,
) -> (result: Result<Claims, VerificationError>)
    ensures
        claims_result_view(result) == verification(
            tee,
            enabled@,
            quote_view(quote),
            expected_digest@,
            alg,
        ),
        quote matches Some(q) && q.report_data@ != expected_digest@ ==> result is Err,
{
    if !is_enabled(enabled, tee) {
        return Err(VerificationError::UnsupportedTee);
    }
    match quote {
        None => Err(VerificationError::MalformedEvidence),
        Some(q) => {
            if !q.signature_valid {
                Err(VerificationError::SignatureFailure)
            } else if expected_digest.len() != alg.digest_len() || !bytes_eq(
                &q.report_data,
                expected_digest,
            ) {
                Err(VerificationError::BindingMismatch)
            } else {
                Ok(
                    Claims {
                        tee,
                        measurement: q.measurement,
                        entries: q.entries,
                        reference: ReferenceStatus::Unknown,
                    },
                )
            }
        },
    }
}

/// Evidence that embeds another digest than the expected one gives no
/// claims, even where its own signature holds; where the family is enabled
/// and the signature holds, the failure is the binding mismatch.
pub proof fn lemma_unbound_evidence_is_refused(
    tee: TeeKind,
    enabled: Seq<TeeKind>,
    quote: QuoteView,
    expected_digest: Seq<u8>,
    alg: HashAlgorithm,
)
    requires
        quote.report_data != expected_digest,
    ensures
        verification(tee, enabled, Some(quote), expected_digest, alg) is Err,
        enabled.contains(tee) && quote.signature_valid ==> verification(
            tee,
            enabled,
            Some(quote),
            expected_digest,
            alg,
        ) == Err::<ClaimsView, VerificationError>(VerificationError::BindingMismatch),
{
}

/// Turns what the hardware family's parser found into claims.
///
/// `quote` is `None` where the evidence could not be parsed; `runtime_data`
/// is the data that the session binds (the nonce and the client's public
/// key), as the client's hardware digested it. No claims are given unless
/// the family is enabled, the evidence's own signature holds and the
/// embedded digest is that of the runtime data under `alg`.
pub fn verify(
    tee: TeeKind,
    enabled: &Vec<TeeKind>,
    quote: Option<Quote>,
    runtime_data: &Vec<u8>,
    alg: HashAlgorithm,
) -> (result: Result<Claims, VerificationError>)
    ensures
        claims_result_view(result) == verification(
            tee,
            enabled@,
            quote_view(quote),
            digest_of(alg, runtime_data@),
            alg,
        ),
        quote matches Some(q) && q.report_data@ != digest_of(alg, runtime_data@) ==> result is Err,
{
    let expected = runtime_digest(alg, runtime_data);
    verify_against(tee, enabled, quote, &expected, alg)
}

} // verus!
