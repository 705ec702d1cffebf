//! The policy engine: from claims and the active policy to a decision.

use vstd::prelude::*;
use crate::bytes::{contains_path, copy_paths, paths_view};
use crate::claims::{Claims, ClaimsView, ReferenceStatus};

verus! {

/// What a policy asks of the comparison with the reference values.
#[derive(Clone, Copy, Debug, PartialEq, Eq, Structural)]
pub enum ReferenceRule {
    /// The comparison does not matter.
    Ignore,
    /// A measurement without a reference value passes; a mismatch does not.
    AllowUnknown,
    /// Only a measurement that equals its reference value passes.
    RequireMatch,
}

/// The rules of a policy that was read in full.
#[derive(Clone, Debug, PartialEq, Eq)]
pub struct Rules {
    pub allow: bool,
    pub reference_rule: ReferenceRule,
    /// The resource paths that the policy releases; `None` releases all.
    pub resources: Option<Vec<Vec<u8>>>,
}

/// The operator's policy as it was loaded.
#[derive(Clone, Debug, PartialEq, Eq)]
pub enum Policy {
    /// The document could not be read as a policy.
    Malformed,
    Active(Rules),
}

/// The mathematical content of a policy.
pub enum PolicyView {
    Malformed,
    Active { allow: bool, reference_rule: ReferenceRule, resources: Option<Seq<Seq<u8>>> },
}

/// The view of an optional list of paths.
pub open spec fn resources_view(resources: Option<Vec<Vec<u8>>>) -> Option<Seq<Seq<u8>>> {
    match resources {
        Some(paths) => Some(paths_view(paths)),
        None => None,
    }
}

impl View for Policy {
    type V = PolicyView;

    open spec fn view(&self) -> PolicyView {
        match self {
            Policy::Malformed => PolicyView::Malformed,
            Policy::Active(rules) => PolicyView::Active {
                allow: rules.allow,
                reference_rule: rules.reference_rule,
                resources: resources_view(rules.resources),
            },
        }
    }
}

/// The outcome of one evaluation.
#[derive(Clone, Debug, PartialEq, Eq)]
pub struct PolicyDecision {
    pub allowed: bool,
    /// The resource paths that may be released; `None` is no constraint.
    pub resource_constraints: Option<Vec<Vec<u8>>>,
}

/// The mathematical content of a decision.
pub struct DecisionView {
    pub allowed: bool,
    pub resource_constraints: Option<Seq<Seq<u8>>>,
}

impl View for PolicyDecision {
    type V = DecisionView;

    open spec fn view(&self) -> DecisionView {
        DecisionView {
            allowed: self.allowed,
            resource_constraints: resources_view(self.resource_constraints),
        }
    }
}

/// Whether a comparison outcome satisfies a rule.
pub open spec fn reference_ok(rule: ReferenceRule, status: ReferenceStatus) -> bool {
    match rule {
        ReferenceRule::Ignore => true,
        ReferenceRule::AllowUnknown => status != ReferenceStatus::Mismatched,
        ReferenceRule::RequireMatch => status == ReferenceStatus::Matched,
    }
}

/// The decision that a policy takes on claims. A malformed policy denies.
pub open spec fn decide(claims: ClaimsView, policy: PolicyView) -> DecisionView {
    match policy {
        PolicyView::Malformed => DecisionView { allowed: false, resource_constraints: None },
        PolicyView::Active { allow, reference_rule, resources } => if allow && reference_ok(
            reference_rule,
            claims.reference,
        ) {
            DecisionView { allowed: true, resource_constraints: resources }
        } else {
            DecisionView { allowed: false, resource_constraints: None }
        },
    }
}

/// Whether a decision releases the resource at `path`.
pub open spec fn permits(decision: DecisionView, path: Seq<u8>) -> bool {
    decision.allowed && match decision.resource_constraints {
        None => true,
        Some(paths) => paths.contains(path),
    }
}

/// Whether a comparison outcome satisfies a rule.
pub fn check_reference(rule: ReferenceRule, status: ReferenceStatus) -> (ok: bool)
    ensures
        ok == reference_ok(rule, status),
{
    match rule {
        ReferenceRule::Ignore => true,
        ReferenceRule::AllowUnknown => status != ReferenceStatus::Mismatched,
        ReferenceRule::RequireMatch => status == ReferenceStatus::Matched,
    }
}

/// Evaluates the policy on the claims. The decision depends on the two
/// arguments alone.
pub fn evaluate(claims: &Claims, policy: &Policy) -> (decision: PolicyDecision)
    ensures
        decision@ == decide(claims@, policy@),
{
    match policy {
        Policy::Malformed => PolicyDecision { allowed: false, resource_constraints: None },
        Policy::Active(rules) => {
            if rules.allow && check_reference(rules.reference_rule, claims.reference) {
                let resource_constraints = match &rules.resources {
                    Some(paths) => Some(copy_paths(paths)),
                    None => None,
                };
                PolicyDecision { allowed: true, resource_constraints }
            } else {
                PolicyDecision { allowed: false, resource_constraints: None }
            }
        },
    }
}

impl PolicyDecision {
    /// Whether the decision releases the resource at `path`.
    pub fn permits(&self, path: &Vec<u8>) -> (ok: bool)
        ensures
            ok == permits(self@, path@),
    {
        if !self.allowed {
            return false;
        }
        match &self.resource_constraints {
            None => true,
            Some(paths) => contains_path(paths, path),
        }
    }
}

/// The policy in force. A new policy takes the place of the old one whole,
/// under the next version number.
#[derive(Clone, Debug, PartialEq, Eq)]
pub struct ActivePolicy {
    pub version: u64,
    pub policy: Policy,
}

impl ActivePolicy {
    /// The first policy in force.
    pub fn new(policy: Policy) -> (active: ActivePolicy)
        ensures
            active.version == 0,
            active.policy == policy,
    {
        ActivePolicy { version: 0, policy }
    }

    /// Puts a new policy in force. Every evaluation from here on sees it.
    pub fn activate(&mut self, policy: Policy)
        requires
            old(self).version < u64::MAX,
        ensures
            final(self).version == old(self).version + 1,
            final(self).policy == policy,
    {
        self.version = self.version + 1;
        self.policy = policy;
    }
}

/// Evaluation is a function: equal claims under equal policies get equal
/// decisions, and so equal answers for every resource.
pub proof fn lemma_evaluate_deterministic(a: Claims, b: Claims, p: Policy, q: Policy, path: Seq<u8>)
    requires
        a@ == b@,
        p@ == q@,
    ensures
        decide(a@, p@) == decide(b@, q@),
        permits(decide(a@, p@), path) == permits(decide(b@, q@), path),
{
}

/// A malformed policy fails closed: it allows nothing and releases nothing.
pub proof fn lemma_malformed_policy_denies(claims: ClaimsView, path: Seq<u8>)
    ensures
        !decide(claims, PolicyView::Malformed).allowed,
        !permits(decide(claims, PolicyView::Malformed), path),
{
}

} // verus!
