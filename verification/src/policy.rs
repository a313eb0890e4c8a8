//! Policies, policy sets and their templates, as clients send them and as the
//! store returns them.

use crate::ids::Uuid;
use vstd::prelude::*;

verus! {

/// What a policy or a rule speaks of.
#[derive(Debug)]
pub struct Resource {
    pub resource_type: String,
    pub identifiers: Vec<String>,
    pub attributes: Vec<String>,
}

/// Where a policy applies.
#[derive(Debug)]
pub struct Environment {
    pub service_providers: Vec<String>,
}

#[derive(Debug)]
pub struct PolicyTarget {
    pub resource: Resource,
    pub actions: Vec<String>,
    pub environment: Environment,
}

#[derive(Clone, Copy, Debug, PartialEq, Eq, Structural)]
pub enum Effect {
    Permit,
    Deny,
}

#[derive(Debug)]
pub struct RuleTarget {
    pub resource: Resource,
    pub actions: Vec<String>,
}

#[derive(Debug)]
pub struct Rule {
    pub effect: Effect,
    pub target: Option<RuleTarget>,
}

/// A policy in the form of the delegation evidence.
#[derive(Debug)]
pub struct Policy {
    pub target: PolicyTarget,
    pub rules: Vec<Rule>,
}

#[derive(Debug)]
pub struct PolicySetTarget {
    pub access_subject: String,
}

/// A policy set to create, with its first policies.
#[derive(Debug)]
pub struct InsertPolicySetWithPolicies {
    pub target: PolicySetTarget,
    pub policy_issuer: String,
    pub licences: Vec<String>,
    pub max_delegation_depth: i32,
    pub policies: Vec<Policy>,
}

#[derive(Debug)]
pub struct TemplatePolicy {
    pub resource_type: String,
    pub identifiers: Vec<String>,
    pub attributes: Vec<String>,
    pub actions: Vec<String>,
    pub service_providers: Vec<String>,
    pub rules: Vec<Rule>,
}

/// A policy set template to create.
#[derive(Debug)]
pub struct InsertPolicySetTemplate {
    pub name: String,
    pub description: Option<String>,
    pub access_subject: Option<String>,
    pub policy_issuer: Option<String>,
    pub policies: Vec<TemplatePolicy>,
}

/// What a list of policy sets is narrowed down by.
#[derive(Debug)]
pub struct GetPolicySetsQuery {
    pub access_subject: Option<String>,
    pub policy_issuer: Option<String>,
    pub q: Option<String>,
    pub limit: Option<u32>,
    pub skip: Option<u32>,
}

/// A record of the store, as the text that clients see. The registry passes it
/// on and never looks inside.
#[derive(Debug)]
pub struct Document {
    pub text: String,
}

/// A stored policy.
#[derive(Debug)]
pub struct PolicyModel {
    pub id: Uuid,
    pub document: Document,
}

/// A stored policy set with its policies.
#[derive(Debug)]
pub struct MatchingPolicySetRow {
    pub document: Document,
}

/// A page of stored policy sets.
#[derive(Debug)]
pub struct PolicySetsWithPagination {
    pub data: Vec<MatchingPolicySetRow>,
    pub pagination: Document,
}

} // verus!
