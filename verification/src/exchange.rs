//! A request on its way: what to do next for it, and what follows from what
//! came of that.

use crate::audit::{AuditEntry, EditedType, EventType};
use crate::error::{AppError, AppErrorView, ExpectedError, BAD_REQUEST, NOT_FOUND, NO_CONTENT, OK};
use crate::ids::Uuid;
use crate::model;
use crate::policy::TemplatePolicy;
use crate::request::{
    Action, Event, InsertPolicySetResponse, InsertPolicySetTemplateResponse, Request, Response,
    ResponseBody, Scope, StoreCall, StoreReply,
};
use crate::time::Timestamp;
use vstd::prelude::*;
use vstd::string::*;

verus! {

/// What an outcome says.
pub open spec fn outcome_view(outcome: Result<Response, AppError>) -> Result<
    Response,
    AppErrorView,
> {
    match outcome {
        Ok(response) => Ok(response),
        Err(error) => Err(error@),
    }
}

/// The view of an outcome is the response, or what the error says.
pub proof fn law_outcomes_are_seen_as_they_are(response: Response, error: AppError)
    ensures
        outcome_view(Ok(response)) == Ok::<Response, AppErrorView>(response),
        outcome_view(Err(error)) == Err::<Response, AppErrorView>(error@),
{
}

/// Whether a request edits a policy set, and so is recorded in the audit log.
fn is_edit(request: &Request) -> (edit: bool)
    ensures
        edit == model::is_edit(*request),
{
    match request {
        Request::AddPolicyToPolicySet { .. } => true,
        Request::ReplacePolicyInPolicySet { .. } => true,
        Request::DeletePolicySet { .. } => true,
        Request::DeletePolicyFromPolicySet { .. } => true,
        _ => false,
    }
}

/// Appends copies of all `strings`.
fn append_all(list: &mut Vec<String>, strings: &Vec<String>)
    ensures
        model::texts(final(list)@) == model::texts(old(list)@) + model::texts(strings@),
{
    let mut i: usize = 0;
    while i < strings.len()
        invariant
            i <= strings@.len(),
            model::texts(list@) == model::texts(old(list)@) + model::texts(strings@.take(i as int)),
        decreases strings@.len() - i,
    {
        let ghost before = list@;
        list.push(strings[i].clone());
        proof {
            assert(strings@.take(i + 1) =~= strings@.take(i as int).push(strings@[i as int]));
            assert(model::texts(list@) =~= model::texts(before).push(strings@[i as int]@));
            assert(model::texts(strings@.take(i + 1)) =~= model::texts(
                strings@.take(i as int),
            ).push(strings@[i as int]@));
        }
        i = i + 1;
    }
    assert(strings@.take(i as int) =~= strings@);
}

/// The service providers of a template, policy after policy.
fn template_parties(policies: &Vec<TemplatePolicy>) -> (parties: Vec<String>)
    ensures
        model::texts(parties@) == model::template_parties(policies@),
{
    let mut parties: Vec<String> = Vec::new();
    let mut i: usize = 0;
    while i < policies.len()
        invariant
            i <= policies@.len(),
            model::texts(parties@) == model::template_parties(policies@.take(i as int)),
        decreases policies@.len() - i,
    {
        append_all(&mut parties, &policies[i].service_providers);
        proof {
            lemma_template_parties_push(policies@.take(i as int), policies@[i as int]);
            assert(policies@.take(i + 1) =~= policies@.take(i as int).push(policies@[i as int]));
        }
        i = i + 1;
    }
    assert(policies@.take(i as int) =~= policies@);
    parties
}

/// One more policy at the end of a template adds its service providers at the
/// end.
proof fn lemma_template_parties_push(policies: Seq<TemplatePolicy>, policy: TemplatePolicy)
    ensures
        model::template_parties(policies.push(policy)) == model::template_parties(policies)
            + model::texts(policy.service_providers@),
{
    let lists = policies.map_values(|p: TemplatePolicy| model::texts(p.service_providers@));
    let more = policies.push(policy).map_values(
        |p: TemplatePolicy| model::texts(p.service_providers@),
    );
    assert(more =~= lists.push(model::texts(policy.service_providers@)));
    lists.lemma_flatten_push(model::texts(policy.service_providers@));
}

/// The parties that have to be valid before anything is done for a request.
fn parties(request: &Request) -> (parties: Vec<String>)
    ensures
        model::texts(parties@) == model::parties(*request),
{
    let mut parties: Vec<String> = Vec::new();
    match request {
        Request::InsertPolicySetTemplate { body } => {
            parties = template_parties(&body.policies);
        },
        Request::AddPolicyToPolicySet { id: _, body } => {
            append_all(&mut parties, &body.target.environment.service_providers);
        },
        Request::ReplacePolicyInPolicySet { policy_set_id: _, policy_id: _, body } => {
            append_all(&mut parties, &body.target.environment.service_providers);
        },
        _ => {},
    }
    parties
}

/// The answer where a service provider is not a valid party.
pub fn party_rejected(party: &str, cause: String) -> (error: AppError)
    ensures
        error@ == model::party_rejected(party@, cause@),
{
    AppError::Expected(
        ExpectedError {
            status_code: BAD_REQUEST,
            message: "Unable to verify service provider '".to_owned().concat(party).concat(
                "' as valid iSHARE party",
            ),
            reason: cause,
            metadata: None,
        },
    )
}

/// An answer where there is no such policy in the policy set.
fn missing_policy(message: &str, policy_set_id: Uuid, policy_id: Uuid) -> (error: AppError)
    ensures
        error@ == model::missing_policy(message@, policy_set_id, policy_id),
{
    AppError::Expected(
        ExpectedError {
            status_code: NOT_FOUND,
            message: message.to_owned(),
            reason: "Unable to find policy with id '".to_owned().concat(
                policy_id.to_string().as_str(),
            ).concat("' and policy set id '").concat(policy_set_id.to_string().as_str()),
            metadata: None,
        },
    )
}

/// The answer where a policy that is looked up is not in the policy set.
pub fn policy_not_found(policy_set_id: Uuid, policy_id: Uuid) -> (error: AppError)
    ensures
        error@ == model::policy_not_found(policy_set_id, policy_id),
{
    missing_policy("Can't find policy", policy_set_id, policy_id)
}

/// The answer where the policy set that is to be edited is not there.
pub fn policy_set_to_edit_not_found(policy_set_id: Uuid) -> (error: AppError)
    ensures
        error@ == model::policy_set_to_edit_not_found(policy_set_id),
{
    AppError::Expected(
        ExpectedError {
            status_code: NOT_FOUND,
            message: "Policy set not found".to_owned(),
            reason: "Unable to find policy set with id '".to_owned().concat(
                policy_set_id.to_string().as_str(),
            ).concat("'"),
            metadata: None,
        },
    )
}

/// The answer where what is to be edited is not there.
pub fn nothing_to_edit(request: &Request) -> (error: AppError)
    requires
        model::is_edit(*request),
    ensures
        error@ == model::nothing_to_edit(*request),
{
    match request {
        Request::AddPolicyToPolicySet { id, body: _ } => policy_set_to_edit_not_found(*id),
        Request::ReplacePolicyInPolicySet { policy_set_id, policy_id, body: _ } => missing_policy(
            "Policy set or policy not found",
            *policy_set_id,
            *policy_id,
        ),
        Request::DeletePolicySet { id } => policy_set_to_edit_not_found(*id),
        Request::DeletePolicyFromPolicySet { policy_set_id, policy_id } => missing_policy(
            "Policy not found",
            *policy_set_id,
            *policy_id,
        ),
        _ => vstd::pervasive::unreached(),
    }
}

/// The answer where there is no such policy set.
pub fn policy_set_not_found() -> (error: AppError)
    ensures
        error@ == model::policy_set_not_found(),
{
    AppError::Expected(
        ExpectedError {
            status_code: NOT_FOUND,
            message: "Can't find policy set".to_owned(),
            reason: "Can't find policy set".to_owned(),
            metadata: None,
        },
    )
}

/// Whether a reply is of the kind that the store gives for a request.
fn fits(request: &Request, reply: &StoreReply) -> (fit: bool)
    ensures
        fit == model::fits(*request, *reply),
{
    match (request, reply) {
        (Request::DeletePolicySetTemplate { .. }, StoreReply::Done) => true,
        (Request::InsertPolicySetTemplate { .. }, StoreReply::Inserted(_)) => true,
        (Request::GetPolicy { .. }, StoreReply::FoundPolicy(_)) => true,
        (Request::AddPolicyToPolicySet { .. }, StoreReply::Written(_)) => true,
        (Request::ReplacePolicyInPolicySet { .. }, StoreReply::Written(_)) => true,
        (Request::DeletePolicySet { .. }, StoreReply::Done) => true,
        (Request::DeletePolicyFromPolicySet { .. }, StoreReply::Done) => true,
        (Request::GetPolicySet { .. }, StoreReply::FoundPolicySet(_)) => true,
        (Request::InsertPolicySet { .. }, StoreReply::Inserted(_)) => true,
        (Request::GetAllPolicySets { .. }, StoreReply::PolicySets(_)) => true,
        _ => false,
    }
}

/// What the call of the store for a request runs on.
fn scope(request: &Request) -> (scope: Scope)
    ensures
        scope == model::scope(*request),
{
    match request {
        Request::AddPolicyToPolicySet { .. } => Scope::Transaction,
        Request::DeletePolicySet { .. } => Scope::Transaction,
        Request::DeletePolicyFromPolicySet { .. } => Scope::Transaction,
        _ => Scope::Connection,
    }
}

/// The call of the store for a request.
fn store_call(request: &Request, now: Timestamp) -> (call: StoreCall<'_>)
    ensures
        call@ == model::store_call(*request, now),
{
    match request {
        Request::DeletePolicySetTemplate { id } => StoreCall::DeletePolicyTemplate { id: *id },
        Request::InsertPolicySetTemplate { body } => StoreCall::InsertPolicySetTemplate { body },
        Request::GetPolicy { policy_set_id, policy_id } => StoreCall::GetPolicy {
            policy_set_id: *policy_set_id,
            policy_id: *policy_id,
        },
        Request::AddPolicyToPolicySet { id, body } => StoreCall::AddPolicyToPolicySet {
            id: *id,
            body,
        },
        Request::ReplacePolicyInPolicySet { policy_set_id, policy_id, body } => {
            StoreCall::ReplacePolicy { policy_set_id: *policy_set_id, policy_id: *policy_id, body }
        },
        Request::DeletePolicySet { id } => StoreCall::DeletePolicySet { id: *id },
        Request::DeletePolicyFromPolicySet { policy_set_id: _, policy_id } => {
            StoreCall::DeletePolicy { policy_id: *policy_id }
        },
        Request::GetPolicySet { id } => StoreCall::GetPolicySetWithPolicies { id: *id },
        Request::InsertPolicySet { body } => StoreCall::InsertPolicySetWithPoliciesAdmin {
            now,
            body,
        },
        Request::GetAllPolicySets { query } => StoreCall::GetPolicySetsWithPolicies {
            access_subject: &query.access_subject,
            policy_issuer: &query.policy_issuer,
            q: &query.q,
            skip: query.skip,
            limit: query.limit,
        },
    }
}

/// The look-up in the store before an edit.
fn look_up(request: &Request) -> (call: StoreCall<'_>)
    requires
        model::is_edit(*request),
    ensures
        call@ == model::look_up(*request),
{
    match request {
        Request::AddPolicyToPolicySet { id, body: _ } => StoreCall::GetPolicySetWithPolicies {
            id: *id,
        },
        Request::ReplacePolicyInPolicySet { policy_set_id, policy_id, body: _ } => {
            StoreCall::GetPolicy { policy_set_id: *policy_set_id, policy_id: *policy_id }
        },
        Request::DeletePolicySet { id } => StoreCall::GetPolicySetWithPolicies { id: *id },
        Request::DeletePolicyFromPolicySet { policy_set_id, policy_id } => StoreCall::GetPolicy {
            policy_set_id: *policy_set_id,
            policy_id: *policy_id,
        },
        _ => vstd::pervasive::unreached(),
    }
}

/// Whether a reply is of the kind that the store gives for the look-up before an
/// edit.
fn fits_look_up(request: &Request, reply: &StoreReply) -> (fit: bool)
    requires
        model::is_edit(*request),
    ensures
        fit == model::fits_look_up(*request, *reply),
{
    match (request, reply) {
        (Request::AddPolicyToPolicySet { .. }, StoreReply::FoundPolicySet(_)) => true,
        (Request::ReplacePolicyInPolicySet { .. }, StoreReply::FoundPolicy(_)) => true,
        (Request::DeletePolicySet { .. }, StoreReply::FoundPolicySet(_)) => true,
        (Request::DeletePolicyFromPolicySet { .. }, StoreReply::FoundPolicy(_)) => true,
        _ => false,
    }
}

/// The identifier of the policy that the store has written.
fn written_policy(reply: &StoreReply) -> (id: Uuid)
    requires
        reply is Written,
    ensures
        id == reply->Written_0.id,
{
    match reply {
        StoreReply::Written(policy) => policy.id,
        _ => vstd::pervasive::unreached(),
    }
}

/// The audit entry of an edit, given what the store replied.
fn audit_entry(request: &Request, reply: &StoreReply, now: Timestamp) -> (entry: AuditEntry)
    requires
        model::is_edit(*request),
        model::fits(*request, *reply),
    ensures
        entry@ == model::audit_entry(*request, *reply, now),
{
    let (policy_set_id, event_type): (Uuid, EventType) = match request {
        Request::AddPolicyToPolicySet { id, body: _ } => (
            *id,
            EventType::ArPolicySetEdited {
                policy_set_id: *id,
                edited_type: EditedType::PolicyAdded { policy_id: written_policy(reply) },
            },
        ),
        Request::ReplacePolicyInPolicySet { policy_set_id, policy_id, body: _ } => (
            *policy_set_id,
            EventType::ArPolicySetEdited {
                policy_set_id: *policy_set_id,
                edited_type: EditedType::PolicyReplaced {
                    old_policy_id: *policy_id,
                    new_policy_id: written_policy(reply),
                },
            },
        ),
        Request::DeletePolicyFromPolicySet { policy_set_id, policy_id } => (
            *policy_set_id,
            EventType::ArPolicySetEdited {
                policy_set_id: *policy_set_id,
                edited_type: EditedType::PolicyRemoved { policy_id: *policy_id },
            },
        ),
        Request::DeletePolicySet { id } => (
            *id,
            EventType::ArPolicySetDeleted { policy_set_id: *id },
        ),
        _ => vstd::pervasive::unreached(),
    };
    AuditEntry {
        time: now,
        source: policy_set_id.to_string(),
        event_type,
        data: None,
        context: None,
    }
}

/// The answer to a request all of whose steps have succeeded, the call of the
/// store with this reply.
pub fn conclude(request: &Request, reply: StoreReply) -> (outcome: Result<Response, AppError>)
    requires
        model::fits(*request, reply),
    ensures
        outcome_view(outcome) == model::conclusion(*request, reply),
{
    match reply {
        StoreReply::Done => {
            let status: u16 = if is_edit(request) {
                NO_CONTENT
            } else {
                OK
            };
            Ok(Response { status, body: ResponseBody::Empty })
        },
        StoreReply::Inserted(uuid) => {
            let body = match request {
                Request::InsertPolicySetTemplate { .. } => ResponseBody::TemplateInserted(
                    InsertPolicySetTemplateResponse { uuid },
                ),
                _ => ResponseBody::PolicySetInserted(InsertPolicySetResponse { uuid }),
            };
            Ok(Response { status: OK, body })
        },
        StoreReply::Written(policy) => Ok(
            Response { status: OK, body: ResponseBody::Policy(policy) },
        ),
        StoreReply::FoundPolicy(Some(policy)) => Ok(
            Response { status: OK, body: ResponseBody::Policy(policy) },
        ),
        StoreReply::FoundPolicy(None) => match request {
            Request::GetPolicy { policy_set_id, policy_id } => Err(
                policy_not_found(*policy_set_id, *policy_id),
            ),
            _ => vstd::pervasive::unreached(),
        },
        StoreReply::FoundPolicySet(Some(policy_set)) => Ok(
            Response { status: OK, body: ResponseBody::PolicySet(policy_set) },
        ),
        StoreReply::FoundPolicySet(None) => Err(policy_set_not_found()),
        StoreReply::PolicySets(policy_sets) => Ok(
            Response { status: OK, body: ResponseBody::PolicySets(policy_sets) },
        ),
    }
}

/// How far a request has come.
enum Stage {
    /// The party with this number is being validated.
    Validate(usize),
    Begin,
    /// What is to be edited is being looked for.
    LookUp,
    Call,
    Log(StoreReply),
    Commit(StoreReply),
    Finished(Result<Response, AppError>),
}

/// A request on its way.
pub struct Exchange {
    request: Request,
    parties: Vec<String>,
    stage: Stage,
    issued_at: Timestamp,
}

impl View for Exchange {
    type V = model::ExchangeView;

    closed spec fn view(&self) -> model::ExchangeView {
        let validated = self.parties@.len();
        let called = validated + if model::is_edit(self.request) {
            2nat
        } else {
            0
        };
        let at = |position: nat, reply: Option<StoreReply>|
            model::Progress::AtStep { position, issued_at: self.issued_at, reply };
        model::ExchangeView {
            request: self.request,
            progress: match self.stage {
                Stage::Validate(i) => at(i as nat, None),
                Stage::Begin => at(validated, None),
                Stage::LookUp => at(validated + 1, None),
                Stage::Call => at(called, None),
                Stage::Log(reply) => at(called + 1, Some(reply)),
                Stage::Commit(reply) => at(called + 2, Some(reply)),
                Stage::Finished(outcome) => model::Progress::Finished {
                    outcome: outcome_view(outcome),
                },
            },
        }
    }
}

impl Exchange {
    /// Whether the parties are those of the request and the stage is one that
    /// the request can be at.
    pub closed spec fn wf(&self) -> bool {
        &&& model::texts(self.parties@) == model::parties(self.request)
        &&& match self.stage {
            Stage::Validate(i) => i < self.parties@.len(),
            Stage::Begin => model::is_edit(self.request),
            Stage::LookUp => model::is_edit(self.request),
            Stage::Call => true,
            Stage::Log(reply) => model::is_edit(self.request) && model::fits(self.request, reply),
            Stage::Commit(reply) => model::is_edit(self.request) && model::fits(
                self.request,
                reply,
            ),
            Stage::Finished(outcome) => true,
        }
    }

    /// A request whose first step is begun at `now`.
    pub fn start(request: Request, now: Timestamp) -> (exchange: Exchange)
        ensures
            exchange.wf(),
            exchange@ == model::started(request, now),
    {
        let parties = parties(&request);
        let stage = if parties.len() > 0 {
            Stage::Validate(0)
        } else {
            Self::work_stage(&request)
        };
        Exchange { request, parties, stage, issued_at: now }
    }

    /// The stage of a request whose parties are known to be valid.
    fn work_stage(request: &Request) -> (stage: Stage)
        ensures
            stage == if model::is_edit(*request) {
                Stage::Begin
            } else {
                Stage::Call
            },
    {
        if is_edit(request) {
            Stage::Begin
        } else {
            Stage::Call
        }
    }

    /// What is to be done next.
    pub fn action(&self) -> (action: Action<'_>)
        requires
            self.wf(),
        ensures
            action@ == model::action(self@),
    {
        match &self.stage {
            Stage::Validate(i) => Action::ValidateParty {
                now: self.issued_at,
                party: self.parties[*i].as_str(),
            },
            Stage::Begin => Action::Begin,
            Stage::LookUp => Action::Call {
                scope: Scope::Transaction,
                call: look_up(&self.request),
            },
            Stage::Call => Action::Call {
                scope: scope(&self.request),
                call: store_call(&self.request, self.issued_at),
            },
            Stage::Log(reply) => Action::LogEvent {
                entry: audit_entry(&self.request, reply, self.issued_at),
            },
            Stage::Commit(_) => Action::Commit,
            Stage::Finished(_) => Action::Respond,
        }
    }

    /// Whether an event can come of what is being done.
    pub fn answered_by(&self, event: &Event) -> (answered: bool)
        requires
            self.wf(),
        ensures
            answered == model::answers(self@, event@),
    {
        let is_list: bool = match &self.request {
            Request::GetAllPolicySets { .. } => true,
            _ => false,
        };
        match (&self.stage, event) {
            (Stage::Finished(_), _) => false,
            (Stage::LookUp, Event::Replied(reply)) => fits_look_up(&self.request, reply),
            (Stage::LookUp, Event::Refused(_)) => true,
            (Stage::LookUp, _) => false,
            (Stage::Call, Event::Done) => false,
            (Stage::Call, Event::Replied(reply)) => fits(&self.request, reply),
            (Stage::Call, Event::Refused(_)) => !is_list,
            (Stage::Call, Event::Failed(_)) => is_list,
            (_, Event::Done) => true,
            (_, Event::Failed(_)) => true,
            (_, _) => false,
        }
    }

    /// The request after what was being done for it came to `event`, with the
    /// next step, if there is one, begun at `now`.
    pub fn resume(self, event: Event, now: Timestamp) -> (exchange: Exchange)
        requires
            self.wf(),
            model::answers(self@, event@),
        ensures
            exchange.wf(),
            exchange@ == model::resumed(self@, event@, now),
    {
        let Exchange { request, parties, stage, issued_at: _ } = self;
        let count: usize = parties.len();
        let stage = match (stage, event) {
            (Stage::Validate(i), Event::Failed(cause)) => Stage::Finished(
                Err(party_rejected(parties[i].as_str(), cause)),
            ),
            (Stage::Validate(i), _) => if i + 1 < count {
                Stage::Validate(i + 1)
            } else {
                Self::work_stage(&request)
            },
            (Stage::Begin, Event::Failed(cause)) => {
                let context = match &request {
                    Request::AddPolicyToPolicySet { .. } => "error starting db connection",
                    _ => "error starting db transaction",
                };
                Stage::Finished(Err(AppError::unexpected(context, cause)))
            },
            (Stage::Begin, _) => Stage::LookUp,
            (Stage::LookUp, Event::Refused(error)) => Stage::Finished(Err(error)),
            (Stage::LookUp, Event::Replied(StoreReply::FoundPolicy(None))) => Stage::Finished(
                Err(nothing_to_edit(&request)),
            ),
            (Stage::LookUp, Event::Replied(StoreReply::FoundPolicySet(None))) => Stage::Finished(
                Err(nothing_to_edit(&request)),
            ),
            (Stage::LookUp, _) => Stage::Call,
            (Stage::Call, Event::Replied(reply)) => if is_edit(&request) {
                Stage::Log(reply)
            } else {
                Stage::Finished(conclude(&request, reply))
            },
            (Stage::Call, Event::Refused(error)) => Stage::Finished(Err(error)),
            (Stage::Call, Event::Failed(cause)) => Stage::Finished(
                Err(AppError::unexpected("Error getting policicy sets", cause)),
            ),
            (Stage::Log(_), Event::Failed(cause)) => {
                let context = match &request {
                    Request::AddPolicyToPolicySet { .. } => "error logging policy added event",
                    Request::DeletePolicySet { .. } => "Error logging policy set deleted event",
                    _ => "Error logging policy set edited event",
                };
                Stage::Finished(Err(AppError::unexpected(context, cause)))
            },
            (Stage::Log(reply), _) => Stage::Commit(reply),
            (Stage::Commit(_), Event::Failed(cause)) => Stage::Finished(
                Err(AppError::unexpected("error commiting transaction to db", cause)),
            ),
            (Stage::Commit(reply), _) => Stage::Finished(conclude(&request, reply)),
            (_, _) => vstd::pervasive::unreached(),
        };
        Exchange { request, parties, stage, issued_at: now }
    }

    /// The answer to the client.
    pub fn into_outcome(self) -> (outcome: Result<Response, AppError>)
        requires
            self.wf(),
            self@.progress is Finished,
        ensures
            outcome_view(outcome) == self@.progress->outcome,
    {
        match self.stage {
            Stage::Finished(outcome) => outcome,
            _ => vstd::pervasive::unreached(),
        }
    }
}

} // verus!
