//! The attestation-to-authorization core of a key broker: sessions and
//! nonces, evidence binding, reference values, policy, tokens, the
//! per-session state machine and the resource gate.

pub mod bytes;
pub mod claims;
pub mod evidence;
pub mod session;
pub mod reference;
pub mod policy;
pub mod token;
pub mod orchestrator;
pub mod gate;
pub mod harness;
pub mod native;
pub mod errors;
