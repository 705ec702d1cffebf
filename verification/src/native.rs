//! The built-in attestation backend: from a client's attestation message
//! to the request that the attestation service evaluates.

use vstd::prelude::*;
use vstd::string::*;
use vstd::utf8::encode_utf8;
use crate::claims::TeeKind;
use crate::evidence::HashAlgorithm;
use crate::harness::AsConfig;

verus! {

/// The error with which `serde_json` refuses a text.
#[verifier::external_type_specification]
#[verifier::external_body]
pub struct ExJsonError(serde_json::Error);

/// The public key that a client binds into its evidence.
#[derive(Clone, Debug, PartialEq, Eq)]
pub struct TeePubKey {
    pub kty: String,
    pub alg: String,
    pub k_mod: String,
    pub k_exp: String,
}

/// The mathematical content of a client's public key.
pub struct TeePubKeyView {
    pub kty: Seq<char>,
    pub alg: Seq<char>,
    pub k_mod: Seq<char>,
    pub k_exp: Seq<char>,
}

impl View for TeePubKey {
    type V = TeePubKeyView;

    open spec fn view(&self) -> TeePubKeyView {
        TeePubKeyView {
            kty: self.kty@,
            alg: self.alg@,
            k_mod: self.k_mod@,
            k_exp: self.k_exp@,
        }
    }
}

/// A client's attestation message.
#[derive(Clone, Debug, PartialEq, Eq)]
pub struct Attestation {
    pub tee_pubkey: TeePubKey,
    pub tee_evidence: String,
}

/// The mathematical content of an attestation message.
pub struct AttestationView {
    pub tee_pubkey: TeePubKeyView,
    pub tee_evidence: Seq<char>,
}

impl View for Attestation {
    type V = AttestationView;

    open spec fn view(&self) -> AttestationView {
        AttestationView { tee_pubkey: self.tee_pubkey@, tee_evidence: self.tee_evidence@ }
    }
}

/// The data that the hardware binds into evidence: the client's key and
/// the session's nonce.
#[derive(Clone, Debug, PartialEq, Eq)]
pub struct RuntimeData {
    pub tee_pubkey: TeePubKey,
    pub nonce: String,
}

/// What the attestation service is asked to evaluate.
#[derive(Clone, Debug, PartialEq, Eq)]
pub struct EvaluationRequest {
    pub evidence: Vec<u8>,
    pub tee: TeeKind,
    pub runtime_data: Option<RuntimeData>,
    pub runtime_data_hash_algorithm: HashAlgorithm,
    pub init_data: Option<Vec<u8>>,
    pub init_data_hash_algorithm: HashAlgorithm,
    pub policy_ids: Vec<String>,
}

/// Why no request was made.
#[derive(Clone, Copy, Debug, PartialEq, Eq, Structural)]
pub enum AttestError {
    /// The attestation message is not the JSON document of an attestation.
    MalformedAttestation,
}

/// The attestation that `serde_json` reads out of a text, or `None` where
/// it refuses the text.
pub uninterp spec fn parsed_attestation(text: Seq<char>) -> Option<AttestationView>;

/// Calls `serde_json::from_str` for a `kbs_types::Attestation` and moves
/// its fields into the library's type. The contract claims only that the
/// outcome is the one that the text determines, under the name
/// `parsed_attestation`.
#[verifier::external_body]
fn parse_attestation(text: &str) -> (result: Result<Attestation, serde_json::Error>)
    ensures
        match result {
            Ok(a) => parsed_attestation(text@) == Some(a@),
            Err(_) => parsed_attestation(text@) is None,
        },
{
    let parsed: Result<kbs_types::Attestation, serde_json::Error> = serde_json::from_str(text);
    match parsed {
        Ok(a) => Ok(
            Attestation {
                tee_pubkey: TeePubKey {
                    kty: a.tee_pubkey.kty,
                    alg: a.tee_pubkey.alg,
                    k_mod: a.tee_pubkey.k_mod,
                    k_exp: a.tee_pubkey.k_exp,
                },
                tee_evidence: a.tee_evidence,
            },
        ),
        Err(e) => Err(e),
    }
}

/// The identifier of the policy that evidence is evaluated under.
pub open spec fn default_policy_id() -> Seq<char> {
    "default"@
}

/// Whether a request is the one made for an attestation, a hardware family
/// and a nonce: the evidence's bytes, the key and the nonce as runtime
/// data, SHA-384 for both digests, no init data, and the default policy.
pub open spec fn is_request_for(
    request: EvaluationRequest,
    attestation: AttestationView,
    tee: TeeKind,
    nonce: Seq<char>,
) -> bool {
    &&& request.evidence@ == encode_utf8(attestation.tee_evidence)
    &&& request.tee == tee
    &&& request.runtime_data matches Some(data) && data.tee_pubkey@ == attestation.tee_pubkey
        && data.nonce@ == nonce
    &&& request.runtime_data_hash_algorithm == HashAlgorithm::Sha384
    &&& request.init_data is None
    &&& request.init_data_hash_algorithm == HashAlgorithm::Sha384
    &&& request.policy_ids@.len() == 1
    &&& request.policy_ids@[0]@ == default_policy_id()
}

/// The built-in backend.
#[derive(Clone, Debug, PartialEq, Eq)]
pub struct Native {
    inner: AsConfig,
}

impl Native {
    /// The configuration of the attestation service behind the backend.
    pub closed spec fn spec_config(&self) -> AsConfig {
        self.inner
    }

    /// A backend for an attestation service of the given configuration.
    pub fn new(config: &AsConfig) -> (native: Native)
        ensures
            native.spec_config() == *config,
    {
        Native {
            inner: AsConfig {
                work_dir: config.work_dir.clone(),
                attestation_token_broker: config.attestation_token_broker,
            },
        }
    }

    /// The configuration of the attestation service behind the backend.
    pub fn config(&self) -> (config: &AsConfig)
        ensures
            *config == self.spec_config(),
    {
        &self.inner
    }

    /// The request for an attestation that was read already.
    pub fn request_for(&self, attestation: Attestation, tee: TeeKind, nonce: &str) -> (request:
        EvaluationRequest)
        ensures
            is_request_for(request, attestation@, tee, nonce@),
    {
        let evidence = attestation.tee_evidence.as_str().as_bytes_vec();
        let runtime_data = RuntimeData {
            tee_pubkey: attestation.tee_pubkey,
            nonce: String::from_str(nonce),
        };
        let mut policy_ids: Vec<String> = Vec::new();
        policy_ids.push(String::from_str("default"));
        EvaluationRequest {
            evidence,
            tee,
            runtime_data: Some(runtime_data),
            runtime_data_hash_algorithm: HashAlgorithm::Sha384,
            init_data: None,
            init_data_hash_algorithm: HashAlgorithm::Sha384,
            policy_ids,
        }
    }

    /// Reads a client's attestation message and makes the request that the
    /// attestation service evaluates for it. Fails where the message is
    /// not the JSON document of an attestation, and nowhere else.
    pub fn verify(&mut self, tee: TeeKind, nonce: &str, attestation: &str) -> (result: Result<
        EvaluationRequest,
        AttestError,
    >)
        ensures
            *final(self) == *old(self),
            match result {
                Ok(request) => parsed_attestation(attestation@) matches Some(a) && is_request_for(
                    request,
                    a,
                    tee,
                    nonce@,
                ),
                Err(e) => parsed_attestation(attestation@) is None && e
                    == AttestError::MalformedAttestation,
            },
    {
        match parse_attestation(attestation) {
            Ok(a) => Ok(self.request_for(a, tee, nonce)),
            Err(_) => Err(AttestError::MalformedAttestation),
        }
    }
}

} // verus!
