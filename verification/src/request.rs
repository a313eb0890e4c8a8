//! What a client asks of the administration endpoints, what the registry does
//! about it step by step, and what the client gets.

use crate::audit::{AuditEntry, AuditEntryView};
use crate::error::{AppError, AppErrorView};
use crate::ids::Uuid;
use crate::policy::{
    GetPolicySetsQuery, InsertPolicySetTemplate, InsertPolicySetWithPolicies, MatchingPolicySetRow,
    Policy, PolicyModel, PolicySetsWithPagination,
};
use crate::time::Timestamp;
use vstd::prelude::*;

verus! {

/// A request to one of the administration endpoints.
#[derive(Debug)]
#[allow(inconsistent_fields)]
pub enum Request {
    DeletePolicySetTemplate { id: Uuid },
    InsertPolicySetTemplate { body: InsertPolicySetTemplate },
    GetPolicy { policy_set_id: Uuid, policy_id: Uuid },
    AddPolicyToPolicySet { id: Uuid, body: Policy },
    ReplacePolicyInPolicySet { policy_set_id: Uuid, policy_id: Uuid, body: Policy },
    DeletePolicySet { id: Uuid },
    DeletePolicyFromPolicySet { policy_set_id: Uuid, policy_id: Uuid },
    GetPolicySet { id: Uuid },
    InsertPolicySet { body: InsertPolicySetWithPolicies },
    GetAllPolicySets { query: GetPolicySetsQuery },
}

/// A call of the policy store.
#[allow(inconsistent_fields)]
pub enum StoreCall<'a> {
    DeletePolicyTemplate { id: Uuid },
    InsertPolicySetTemplate { body: &'a InsertPolicySetTemplate },
    GetPolicy { policy_set_id: Uuid, policy_id: Uuid },
    AddPolicyToPolicySet { id: Uuid, body: &'a Policy },
    ReplacePolicy { policy_set_id: Uuid, policy_id: Uuid, body: &'a Policy },
    DeletePolicySet { id: Uuid },
    DeletePolicy { policy_id: Uuid },
    GetPolicySetWithPolicies { id: Uuid },
    InsertPolicySetWithPoliciesAdmin { now: Timestamp, body: &'a InsertPolicySetWithPolicies },
    GetPolicySetsWithPolicies {
        access_subject: &'a Option<String>,
        policy_issuer: &'a Option<String>,
        q: &'a Option<String>,
        skip: Option<u32>,
        limit: Option<u32>,
    },
}

/// A [`StoreCall`] with what it refers to.
#[allow(inconsistent_fields)]
pub ghost enum StoreCallView {
    DeletePolicyTemplate { id: Uuid },
    InsertPolicySetTemplate { body: InsertPolicySetTemplate },
    GetPolicy { policy_set_id: Uuid, policy_id: Uuid },
    AddPolicyToPolicySet { id: Uuid, body: Policy },
    ReplacePolicy { policy_set_id: Uuid, policy_id: Uuid, body: Policy },
    DeletePolicySet { id: Uuid },
    DeletePolicy { policy_id: Uuid },
    GetPolicySetWithPolicies { id: Uuid },
    InsertPolicySetWithPoliciesAdmin { now: Timestamp, body: InsertPolicySetWithPolicies },
    GetPolicySetsWithPolicies {
        access_subject: Option<String>,
        policy_issuer: Option<String>,
        q: Option<String>,
        skip: Option<u32>,
        limit: Option<u32>,
    },
}

impl<'a> View for StoreCall<'a> {
    type V = StoreCallView;

    open spec fn view(&self) -> StoreCallView {
        match *self {
            StoreCall::DeletePolicyTemplate { id } => StoreCallView::DeletePolicyTemplate { id },
            StoreCall::InsertPolicySetTemplate { body } => StoreCallView::InsertPolicySetTemplate {
                body: *body,
            },
            StoreCall::GetPolicy { policy_set_id, policy_id } => StoreCallView::GetPolicy {
                policy_set_id,
                policy_id,
            },
            StoreCall::AddPolicyToPolicySet { id, body } => StoreCallView::AddPolicyToPolicySet {
                id,
                body: *body,
            },
            StoreCall::ReplacePolicy { policy_set_id, policy_id, body } => {
                StoreCallView::ReplacePolicy { policy_set_id, policy_id, body: *body }
            },
            StoreCall::DeletePolicySet { id } => StoreCallView::DeletePolicySet { id },
            StoreCall::DeletePolicy { policy_id } => StoreCallView::DeletePolicy { policy_id },
            StoreCall::GetPolicySetWithPolicies { id } => StoreCallView::GetPolicySetWithPolicies {
                id,
            },
            StoreCall::InsertPolicySetWithPoliciesAdmin { now, body } => {
                StoreCallView::InsertPolicySetWithPoliciesAdmin { now, body: *body }
            },
            StoreCall::GetPolicySetsWithPolicies {
                access_subject,
                policy_issuer,
                q,
                skip,
                limit,
            } => StoreCallView::GetPolicySetsWithPolicies {
                access_subject: *access_subject,
                policy_issuer: *policy_issuer,
                q: *q,
                skip,
                limit,
            },
        }
    }
}

/// The view of a call holds each part of the call under its own name.
pub proof fn law_calls_are_seen_as_they_are(
    id: Uuid,
    policy_set_id: Uuid,
    policy_id: Uuid,
    now: Timestamp,
    template: InsertPolicySetTemplate,
    policy: Policy,
    policy_set: InsertPolicySetWithPolicies,
    query: GetPolicySetsQuery,
)
    ensures
        (StoreCall::DeletePolicyTemplate { id })@ == (StoreCallView::DeletePolicyTemplate { id }),
        (StoreCall::InsertPolicySetTemplate { body: &template })@ == (
        StoreCallView::InsertPolicySetTemplate { body: template }),
        (StoreCall::GetPolicy { policy_set_id, policy_id })@ == (StoreCallView::GetPolicy {
            policy_set_id,
            policy_id,
        }),
        (StoreCall::AddPolicyToPolicySet { id, body: &policy })@ == (
        StoreCallView::AddPolicyToPolicySet { id, body: policy }),
        (StoreCall::ReplacePolicy { policy_set_id, policy_id, body: &policy })@ == (
        StoreCallView::ReplacePolicy { policy_set_id, policy_id, body: policy }),
        (StoreCall::DeletePolicySet { id })@ == (StoreCallView::DeletePolicySet { id }),
        (StoreCall::DeletePolicy { policy_id })@ == (StoreCallView::DeletePolicy { policy_id }),
        (StoreCall::GetPolicySetWithPolicies { id })@ == (StoreCallView::GetPolicySetWithPolicies {
            id,
        }),
        (StoreCall::InsertPolicySetWithPoliciesAdmin { now, body: &policy_set })@ == (
        StoreCallView::InsertPolicySetWithPoliciesAdmin { now, body: policy_set }),
        (StoreCall::GetPolicySetsWithPolicies {
            access_subject: &query.access_subject,
            policy_issuer: &query.policy_issuer,
            q: &query.q,
            skip: query.skip,
            limit: query.limit,
        })@ == (StoreCallView::GetPolicySetsWithPolicies {
            access_subject: query.access_subject,
            policy_issuer: query.policy_issuer,
            q: query.q,
            skip: query.skip,
            limit: query.limit,
        }),
{
}

/// What a call of the store runs on.
#[derive(Clone, Copy, Debug, PartialEq, Eq, Structural)]
pub enum Scope {
    /// The connection itself: the effect lasts as soon as the call succeeds.
    Connection,
    /// The open transaction: the effect lasts once the transaction is
    /// committed.
    Transaction,
}

/// The next thing to do for a request.
pub enum Action<'a> {
    /// Ask the satellite whether the party is a valid one.
    ValidateParty { now: Timestamp, party: &'a str },
    /// Open a transaction.
    Begin,
    Call { scope: Scope, call: StoreCall<'a> },
    /// Append to the audit log, in the open transaction.
    LogEvent { entry: AuditEntry },
    /// Commit the open transaction.
    Commit,
    /// Answer the client. A transaction that is still open is given up.
    Respond,
}

/// An [`Action`] with what it refers to.
pub ghost enum ActionView {
    ValidateParty { now: Timestamp, party: Seq<char> },
    Begin,
    Call { scope: Scope, call: StoreCallView },
    LogEvent { entry: AuditEntryView },
    Commit,
    Respond,
}

impl<'a> View for Action<'a> {
    type V = ActionView;

    open spec fn view(&self) -> ActionView {
        match *self {
            Action::ValidateParty { now, party } => ActionView::ValidateParty { now, party: party@ },
            Action::Begin => ActionView::Begin,
            Action::Call { scope, call } => ActionView::Call { scope, call: call@ },
            Action::LogEvent { entry } => ActionView::LogEvent { entry: entry@ },
            Action::Commit => ActionView::Commit,
            Action::Respond => ActionView::Respond,
        }
    }
}

/// The view of an action holds each part of the action under its own name.
pub proof fn law_actions_are_seen_as_they_are(
    now: Timestamp,
    party: &str,
    scope: Scope,
    call: StoreCall,
    entry: AuditEntry,
)
    ensures
        (Action::ValidateParty { now, party })@ == (ActionView::ValidateParty {
            now,
            party: party@,
        }),
        Action::Begin@ == ActionView::Begin,
        (Action::Call { scope, call })@ == (ActionView::Call { scope, call: call@ }),
        (Action::LogEvent { entry })@ == (ActionView::LogEvent { entry: entry@ }),
        Action::Commit@ == ActionView::Commit,
        Action::Respond@ == ActionView::Respond,
{
}

/// What a successful call of the store returns.
#[derive(Debug)]
pub enum StoreReply {
    Done,
    Inserted(Uuid),
    Written(PolicyModel),
    FoundPolicy(Option<PolicyModel>),
    FoundPolicySet(Option<MatchingPolicySetRow>),
    PolicySets(PolicySetsWithPagination),
}

/// What came of an action.
#[derive(Debug)]
pub enum Event {
    /// The party is valid, or the transaction is open, the entry logged, the
    /// transaction committed.
    Done,
    /// The store did what it was asked.
    Replied(StoreReply),
    /// The store gave an error of the registry.
    Refused(AppError),
    /// It failed, for the reason given.
    Failed(String),
}

/// What an [`Event`] says.
pub ghost enum EventView {
    Done,
    Replied(StoreReply),
    Refused(AppErrorView),
    Failed(Seq<char>),
}

impl View for Event {
    type V = EventView;

    open spec fn view(&self) -> EventView {
        match *self {
            Event::Done => EventView::Done,
            Event::Replied(reply) => EventView::Replied(reply),
            Event::Refused(error) => EventView::Refused(error@),
            Event::Failed(cause) => EventView::Failed(cause@),
        }
    }
}

/// The view of an event holds what the event says.
pub proof fn law_events_are_seen_as_they_are(reply: StoreReply, error: AppError, cause: String)
    ensures
        Event::Done@ == EventView::Done,
        Event::Replied(reply)@ == EventView::Replied(reply),
        Event::Refused(error)@ == EventView::Refused(error@),
        Event::Failed(cause)@ == EventView::Failed(cause@),
{
}

#[derive(Clone, Copy, Debug, PartialEq, Eq, Structural)]
pub struct InsertPolicySetTemplateResponse {
    pub uuid: Uuid,
}

#[derive(Clone, Copy, Debug, PartialEq, Eq, Structural)]
pub struct InsertPolicySetResponse {
    pub uuid: Uuid,
}

#[derive(Debug)]
pub enum ResponseBody {
    Empty,
    TemplateInserted(InsertPolicySetTemplateResponse),
    PolicySetInserted(InsertPolicySetResponse),
    Policy(PolicyModel),
    PolicySet(MatchingPolicySetRow),
    PolicySets(PolicySetsWithPagination),
}

/// What a client gets when its request succeeds.
#[derive(Debug)]
pub struct Response {
    pub status: u16,
    pub body: ResponseBody,
}

} // verus!
