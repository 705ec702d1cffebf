//! A harness that sets a broker up for trials: its configuration, and the
//! requests that a trial sends to it.

use vstd::prelude::*;
use vstd::string::*;
use crate::policy::{Policy, PolicyView, ReferenceRule, Rules};
use crate::token::TokenEncoding;

verus! {

/// How long a trial waits for the broker, in milliseconds.
pub const WAIT_TIME: u64 = 3000;

/// How long a token lives unless told otherwise, in minutes.
pub const DEFAULT_TOKEN_DURATION: i64 = 5;

/// Where the broker listens.
pub open spec fn spec_kbs_url() -> Seq<char> {
    "http://127.0.0.1:8080"@
}

/// The socket on which the broker listens.
pub open spec fn spec_kbs_socket() -> Seq<char> {
    "127.0.0.1:8080"@
}

/// Where the broker listens.
pub fn kbs_url() -> (url: String)
    ensures
        url@ == spec_kbs_url(),
{
    String::from_str("http://127.0.0.1:8080")
}

/// The policies that a trial can put in place.
#[derive(Clone, Copy, Debug, PartialEq, Eq, Structural)]
pub enum PolicyType {
    AllowAll,
    DenyAll,
}

/// The text of a policy that allows everything.
pub open spec fn allow_all_text() -> Seq<u8> {
    "
    package policy
    allow = true
".spec_bytes()
}

/// The text of a policy that denies everything.
pub open spec fn deny_all_text() -> Seq<u8> {
    "
    package policy
    allow = false
".spec_bytes()
}

impl PolicyType {
    /// The policy's document as the broker takes it.
    pub open spec fn spec_document(self) -> Seq<u8> {
        match self {
            PolicyType::AllowAll => allow_all_text(),
            PolicyType::DenyAll => deny_all_text(),
        }
    }

    /// The policy's rules.
    pub open spec fn spec_rules(self) -> PolicyView {
        PolicyView::Active {
            allow: self == PolicyType::AllowAll,
            reference_rule: ReferenceRule::Ignore,
            resources: None,
        }
    }

    /// The policy's document as the broker takes it.
    pub fn document(self) -> (text: Vec<u8>)
        ensures
            text@ == self.spec_document(),
    {
        match self {
            PolicyType::AllowAll => "
    package policy
    allow = true
".as_bytes_vec(),
            PolicyType::DenyAll => "
    package policy
    allow = false
".as_bytes_vec(),
        }
    }

    /// The policy's rules: all is allowed, or nothing is, whatever the
    /// claims and the resource.
    pub fn rules(self) -> (policy: Policy)
        ensures
            policy@ == self.spec_rules(),
    {
        let allow = match self {
            PolicyType::AllowAll => true,
            PolicyType::DenyAll => false,
        };
        Policy::Active(Rules { allow, reference_rule: ReferenceRule::Ignore, resources: None })
    }
}

/// What shapes a trial.
#[derive(Clone, Debug, PartialEq, Eq)]
pub struct TestParameters {
    /// `Simple` or `Ear`.
    pub attestation_token_type: String,
}

/// How the broker checks the tokens that are presented to it.
#[derive(Clone, Debug, PartialEq, Eq)]
pub struct AttestationTokenVerifierConfig {
    pub trusted_certs_paths: Vec<String>,
    pub insecure_key: bool,
    pub trusted_jwk_sets: Vec<String>,
    pub extra_teekey_paths: Vec<String>,
}

/// How tokens are issued: the encoding and the minutes that a token lives.
#[derive(Clone, Copy, Debug, PartialEq, Eq, Structural)]
pub struct AttestationTokenConfig {
    pub encoding: TokenEncoding,
    pub duration_min: i64,
}

/// The built-in attestation service.
#[derive(Clone, Debug, PartialEq, Eq)]
pub struct AsConfig {
    pub work_dir: String,
    pub attestation_token_broker: AttestationTokenConfig,
}

/// The attestation service and how long the broker waits for evidence,
/// in minutes.
#[derive(Clone, Debug, PartialEq, Eq)]
pub struct AttestationConfig {
    pub attestation_service: AsConfig,
    pub timeout: i64,
}

#[derive(Clone, Debug, PartialEq, Eq)]
pub struct HttpServerConfig {
    pub sockets: Vec<String>,
    pub private_key: Option<String>,
    pub certificate: Option<String>,
    pub insecure_http: bool,
}

#[derive(Clone, Debug, PartialEq, Eq)]
pub struct AdminConfig {
    pub auth_public_key: Option<String>,
    pub insecure_api: bool,
}

#[derive(Clone, Debug, PartialEq, Eq)]
pub struct PolicyEngineConfig {
    pub policy_path: String,
}

/// Where resources are kept.
#[derive(Clone, Debug, PartialEq, Eq)]
pub enum RepositoryConfig {
    LocalFs { dir_path: String },
}

#[derive(Clone, Debug, PartialEq, Eq)]
pub enum PluginsConfig {
    ResourceStorage(RepositoryConfig),
}

/// The broker's configuration, made once and handed to its parts.
#[derive(Clone, Debug, PartialEq, Eq)]
pub struct KbsConfig {
    pub attestation_token: AttestationTokenVerifierConfig,
    pub attestation_service: AttestationConfig,
    pub http_server: HttpServerConfig,
    pub admin: AdminConfig,
    pub policy_engine: PolicyEngineConfig,
    pub plugins: Vec<PluginsConfig>,
}

/// The places and the key that a harness is built around. The caller makes
/// the directories and files and draws the key.
#[derive(Clone, Debug, PartialEq, Eq)]
pub struct HarnessMaterial {
    /// The administrator's private key, PEM-encoded.
    pub auth_privkey: String,
    pub work_dir: String,
    pub resource_dir: String,
    pub policy_path: String,
}

/// Why no harness was built.
#[derive(Clone, Copy, Debug, PartialEq, Eq, Structural)]
pub enum HarnessError {
    /// The token type is neither `Simple` nor `Ear`.
    UnknownTokenType,
}

/// A broker set up for trials.
#[derive(Clone, Debug, PartialEq, Eq)]
pub struct TestHarness {
    pub kbs_config: KbsConfig,
    auth_privkey: String,
    _test_parameters: TestParameters,
}

/// A request to put a resource policy in place.
#[derive(Clone, Debug, PartialEq, Eq)]
pub struct PolicyUpload {
    pub url: String,
    pub auth_key: String,
    pub policy: Vec<u8>,
    pub https_certs: Vec<String>,
}

/// A request to store a secret.
#[derive(Clone, Debug, PartialEq, Eq)]
pub struct SecretUpload {
    pub url: String,
    pub auth_key: String,
    pub secret: Vec<u8>,
    pub path: String,
    pub https_certs: Vec<String>,
}

/// A request to fetch a secret after attestation.
#[derive(Clone, Debug, PartialEq, Eq)]
pub struct SecretFetch {
    pub url: String,
    pub path: String,
    pub tee_key: Option<String>,
    pub https_certs: Vec<String>,
}

/// The token configuration that a token type's name stands for.
pub open spec fn token_config_for(name: Seq<char>) -> Option<AttestationTokenConfig> {
    if name == "Ear"@ {
        Some(AttestationTokenConfig { encoding: TokenEncoding::Ear, duration_min: 5 })
    } else if name == "Simple"@ {
        Some(
            AttestationTokenConfig {
                encoding: TokenEncoding::Simple,
                duration_min: DEFAULT_TOKEN_DURATION,
            },
        )
    } else {
        None
    }
}

/// Whether a configuration is the one that a harness runs a broker with:
/// plain HTTP on the local socket, no keys to check, the built-in
/// attestation service, and resources in a local directory.
pub open spec fn is_trial_config(
    config: KbsConfig,
    broker: AttestationTokenConfig,
    work_dir: Seq<char>,
    resource_dir: Seq<char>,
    policy_path: Seq<char>,
) -> bool {
    &&& config.attestation_token.trusted_certs_paths@.len() == 0
    &&& config.attestation_token.insecure_key
    &&& config.attestation_token.trusted_jwk_sets@.len() == 0
    &&& config.attestation_token.extra_teekey_paths@.len() == 0
    &&& config.attestation_service.attestation_service.work_dir@ == work_dir
    &&& config.attestation_service.attestation_service.attestation_token_broker == broker
    &&& config.attestation_service.timeout == 5
    &&& config.http_server.sockets@.len() == 1
    &&& config.http_server.sockets@[0]@ == spec_kbs_socket()
    &&& config.http_server.private_key is None
    &&& config.http_server.certificate is None
    &&& config.http_server.insecure_http
    &&& config.admin.auth_public_key is None
    &&& config.admin.insecure_api
    &&& config.policy_engine.policy_path@ == policy_path
    &&& config.plugins@.len() == 1
    &&& config.plugins@[0] matches PluginsConfig::ResourceStorage(
        RepositoryConfig::LocalFs { dir_path },
    ) && dir_path@ == resource_dir
}

/// The token configuration that a token type's name stands for.
pub fn token_config(name: &String) -> (config: Option<AttestationTokenConfig>)
    ensures
        config == token_config_for(name@),
{
    if *name == String::from_str("Ear") {
        Some(AttestationTokenConfig { encoding: TokenEncoding::Ear, duration_min: 5 })
    } else if *name == String::from_str("Simple") {
        Some(
            AttestationTokenConfig {
                encoding: TokenEncoding::Simple,
                duration_min: DEFAULT_TOKEN_DURATION,
            },
        )
    } else {
        None
    }
}

impl TestHarness {
    /// The administrator's private key.
    pub closed spec fn spec_auth_key(&self) -> Seq<char> {
        self.auth_privkey@
    }

    /// The broker's configuration.
    pub closed spec fn spec_config(&self) -> KbsConfig {
        self.kbs_config
    }

    /// The broker's configuration.
    pub fn config(&self) -> (config: &KbsConfig)
        ensures
            *config == self.spec_config(),
    {
        &self.kbs_config
    }

    /// The parameters that the harness was built with.
    pub closed spec fn spec_parameters(&self) -> TestParameters {
        self._test_parameters
    }

    /// Builds the harness for a token type, around the key and the places
    /// that the caller made. Fails on a token type that is neither `Simple`
    /// nor `Ear`, and on nothing else.
    pub fn new(test_parameters: TestParameters, material: HarnessMaterial) -> (result: Result<
        TestHarness,
        HarnessError,
    >)
        ensures
            match result {
                Ok(harness) => {
                    &&& token_config_for(test_parameters.attestation_token_type@) matches Some(
                        broker,
                    ) && is_trial_config(
                        harness.spec_config(),
                        broker,
                        material.work_dir@,
                        material.resource_dir@,
                        material.policy_path@,
                    )
                    &&& harness.spec_auth_key() == material.auth_privkey@
                    &&& harness.spec_parameters() == test_parameters
                },
                Err(e) => {
                    &&& token_config_for(test_parameters.attestation_token_type@) is None
                    &&& e == HarnessError::UnknownTokenType
                },
            },
    {
        let attestation_token_config = match token_config(
            &test_parameters.attestation_token_type,
        ) {
            Some(config) => config,
            None => {
                return Err(HarnessError::UnknownTokenType);
            },
        };
        let mut sockets: Vec<String> = Vec::new();
        sockets.push(String::from_str("127.0.0.1:8080"));
        let mut plugins: Vec<PluginsConfig> = Vec::new();
        plugins.push(
            PluginsConfig::ResourceStorage(
                RepositoryConfig::LocalFs { dir_path: material.resource_dir },
            ),
        );
        let kbs_config = KbsConfig {
            attestation_token: AttestationTokenVerifierConfig {
                trusted_certs_paths: Vec::new(),
                insecure_key: true,
                trusted_jwk_sets: Vec::new(),
                extra_teekey_paths: Vec::new(),
            },
            attestation_service: AttestationConfig {
                attestation_service: AsConfig {
                    work_dir: material.work_dir,
                    attestation_token_broker: attestation_token_config,
                },
                timeout: 5,
            },
            http_server: HttpServerConfig {
                sockets,
                private_key: None,
                certificate: None,
                insecure_http: true,
            },
            admin: AdminConfig { auth_public_key: None, insecure_api: true },
            policy_engine: PolicyEngineConfig { policy_path: material.policy_path },
            plugins,
        };
        Ok(
            TestHarness {
                kbs_config,
                auth_privkey: material.auth_privkey,
                _test_parameters: test_parameters,
            },
        )
    }

    /// The request that puts a resource policy in place.
    pub fn set_policy(&self, policy: PolicyType) -> (request: PolicyUpload)
        ensures
            request.url@ == spec_kbs_url(),
            request.auth_key@ == self.spec_auth_key(),
            request.policy@ == policy.spec_document(),
            request.https_certs@.len() == 0,
    {
        PolicyUpload {
            url: kbs_url(),
            auth_key: self.auth_privkey.clone(),
            policy: policy.document(),
            https_certs: Vec::new(),
        }
    }

    /// The request that stores a secret at a path.
    pub fn set_secret(&self, secret_path: String, secret_bytes: Vec<u8>) -> (request: SecretUpload)
        ensures
            request.url@ == spec_kbs_url(),
            request.auth_key@ == self.spec_auth_key(),
            request.secret@ == secret_bytes@,
            request.path@ == secret_path@,
            request.https_certs@.len() == 0,
    {
        SecretUpload {
            url: kbs_url(),
            auth_key: self.auth_privkey.clone(),
            secret: secret_bytes,
            path: secret_path,
            https_certs: Vec::new(),
        }
    }

    /// The request that fetches the secret at a path: with attestation,
    /// and without a key of the caller's own.
    pub fn get_secret(&self, secret_path: String) -> (request: SecretFetch)
        ensures
            request.url@ == spec_kbs_url(),
            request.path@ == secret_path@,
            request.tee_key is None,
            request.https_certs@.len() == 0,
    {
        SecretFetch { url: kbs_url(), path: secret_path, tee_key: None, https_certs: Vec::new() }
    }

    /// How long to wait for the broker, in milliseconds.
    pub fn wait(&self) -> (millis: u64)
        ensures
            millis == WAIT_TIME,
    {
        WAIT_TIME
    }
}

} // verus!
