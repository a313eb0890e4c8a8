//! The administration endpoints as mathematics: the plan that each request
//! follows, and the state of a request on its way through that plan.

use crate::audit::{AuditEntryView, EditedType, EventType};
use crate::error::{AppErrorView, BAD_REQUEST, NOT_FOUND, NO_CONTENT, OK};
use crate::ids::Uuid;
use crate::policy::TemplatePolicy;
use crate::request::{
    ActionView, EventView, InsertPolicySetResponse, InsertPolicySetTemplateResponse, Request,
    Response, ResponseBody, Scope, StoreCallView, StoreReply,
};
use crate::time::Timestamp;
use vstd::prelude::*;

verus! {

/// A step of the plan of a request.
pub ghost enum Step {
    ValidateParty { party: Seq<char> },
    Begin,
    /// Look for what is to be edited.
    LookUp,
    Call,
    Log,
    Commit,
}

/// How far a request has come.
pub ghost enum Progress {
    /// So many steps are behind it. The current one was begun at the time
    /// given, and the store may have replied by now.
    AtStep { position: nat, issued_at: Timestamp, reply: Option<StoreReply> },
    /// The client can be answered.
    Finished { outcome: Result<Response, AppErrorView> },
}

/// A request on its way.
pub ghost struct ExchangeView {
    pub request: Request,
    pub progress: Progress,
}

/// The texts of a list of strings.
pub open spec fn texts(strings: Seq<String>) -> Seq<Seq<char>> {
    strings.map_values(|s: String| s@)
}

/// The service providers of a template: those of its first policy, then those
/// of the second, and so on.
pub open spec fn template_parties(policies: Seq<TemplatePolicy>) -> Seq<Seq<char>> {
    policies.map_values(|p: TemplatePolicy| texts(p.service_providers@)).flatten()
}

/// The parties that have to be valid before anything is done for a request.
pub open spec fn parties(request: Request) -> Seq<Seq<char>> {
    match request {
        Request::InsertPolicySetTemplate { body } => template_parties(body.policies@),
        Request::AddPolicyToPolicySet { id, body } => texts(
            body.target.environment.service_providers@,
        ),
        Request::ReplacePolicyInPolicySet { policy_set_id, policy_id, body } => texts(
            body.target.environment.service_providers@,
        ),
        _ => Seq::empty(),
    }
}

/// Whether a request edits a policy set, and so is recorded in the audit log.
pub open spec fn is_edit(request: Request) -> bool {
    ||| request is AddPolicyToPolicySet
    ||| request is ReplacePolicyInPolicySet
    ||| request is DeletePolicySet
    ||| request is DeletePolicyFromPolicySet
}

/// Whether a request only looks something up.
pub open spec fn is_read(request: Request) -> bool {
    ||| request is GetPolicy
    ||| request is GetPolicySet
    ||| request is GetAllPolicySets
}

/// What is done for a request once its parties are known to be valid. An edit is
/// made only when what is to be edited was found.
pub open spec fn work(request: Request) -> Seq<Step> {
    if is_edit(request) {
        seq![Step::Begin, Step::LookUp, Step::Call, Step::Log, Step::Commit]
    } else {
        seq![Step::Call]
    }
}

/// The steps of a request, in the order in which they are taken. Each is taken
/// only when the one before it has succeeded.
pub open spec fn plan(request: Request) -> Seq<Step> {
    parties(request).map_values(|party: Seq<char>| Step::ValidateParty { party }) + work(request)
}

/// What the call of the store for a request runs on. A policy is replaced on
/// the connection; every other edit runs in the transaction.
pub open spec fn scope(request: Request) -> Scope {
    if is_edit(request) && !(request is ReplacePolicyInPolicySet) {
        Scope::Transaction
    } else {
        Scope::Connection
    }
}

/// The call of the store for a request.
pub open spec fn store_call(request: Request, now: Timestamp) -> StoreCallView {
    match request {
        Request::DeletePolicySetTemplate { id } => StoreCallView::DeletePolicyTemplate { id },
        Request::InsertPolicySetTemplate { body } => StoreCallView::InsertPolicySetTemplate { body },
        Request::GetPolicy { policy_set_id, policy_id } => StoreCallView::GetPolicy {
            policy_set_id,
            policy_id,
        },
        Request::AddPolicyToPolicySet { id, body } => StoreCallView::AddPolicyToPolicySet {
            id,
            body,
        },
        Request::ReplacePolicyInPolicySet { policy_set_id, policy_id, body } => {
            StoreCallView::ReplacePolicy { policy_set_id, policy_id, body }
        },
        Request::DeletePolicySet { id } => StoreCallView::DeletePolicySet { id },
        Request::DeletePolicyFromPolicySet { policy_set_id, policy_id } => {
            StoreCallView::DeletePolicy { policy_id }
        },
        Request::GetPolicySet { id } => StoreCallView::GetPolicySetWithPolicies { id },
        Request::InsertPolicySet { body } => StoreCallView::InsertPolicySetWithPoliciesAdmin {
            now,
            body,
        },
        Request::GetAllPolicySets { query } => StoreCallView::GetPolicySetsWithPolicies {
            access_subject: query.access_subject,
            policy_issuer: query.policy_issuer,
            q: query.q,
            skip: query.skip,
            limit: query.limit,
        },
    }
}

/// The look-up in the store before an edit: of the policy that is to be replaced
/// or removed, in its policy set, or else of the policy set.
pub open spec fn look_up(request: Request) -> StoreCallView
    recommends
        is_edit(request),
{
    match request {
        Request::ReplacePolicyInPolicySet { policy_set_id, policy_id, body } => {
            StoreCallView::GetPolicy { policy_set_id, policy_id }
        },
        Request::DeletePolicyFromPolicySet { policy_set_id, policy_id } => {
            StoreCallView::GetPolicy { policy_set_id, policy_id }
        },
        _ => StoreCallView::GetPolicySetWithPolicies { id: edited_policy_set(request) },
    }
}

/// Whether a reply is of the kind that the store gives for the look-up before an
/// edit.
pub open spec fn fits_look_up(request: Request, reply: StoreReply) -> bool {
    if look_up(request) is GetPolicy {
        reply is FoundPolicy
    } else {
        reply is FoundPolicySet
    }
}

/// Whether a reply says that nothing was found.
pub open spec fn finds_nothing(reply: StoreReply) -> bool {
    reply == StoreReply::FoundPolicy(None) || reply == StoreReply::FoundPolicySet(None)
}

/// Whether a call of the store only looks something up.
pub open spec fn only_reads(call: StoreCallView) -> bool {
    ||| call is GetPolicy
    ||| call is GetPolicySetWithPolicies
    ||| call is GetPolicySetsWithPolicies
}

/// Whether a reply is of the kind that the store gives for a request.
pub open spec fn fits(request: Request, reply: StoreReply) -> bool {
    match request {
        Request::DeletePolicySetTemplate { .. } => reply is Done,
        Request::InsertPolicySetTemplate { .. } => reply is Inserted,
        Request::GetPolicy { .. } => reply is FoundPolicy,
        Request::AddPolicyToPolicySet { .. } => reply is Written,
        Request::ReplacePolicyInPolicySet { .. } => reply is Written,
        Request::DeletePolicySet { .. } => reply is Done,
        Request::DeletePolicyFromPolicySet { .. } => reply is Done,
        Request::GetPolicySet { .. } => reply is FoundPolicySet,
        Request::InsertPolicySet { .. } => reply is Inserted,
        Request::GetAllPolicySets { .. } => reply is PolicySets,
    }
}

/// The policy set that an edit is about.
pub open spec fn edited_policy_set(request: Request) -> Uuid
    recommends
        is_edit(request),
{
    match request {
        Request::AddPolicyToPolicySet { id, body } => id,
        Request::ReplacePolicyInPolicySet { policy_set_id, policy_id, body } => policy_set_id,
        Request::DeletePolicySet { id } => id,
        Request::DeletePolicyFromPolicySet { policy_set_id, policy_id } => policy_set_id,
        _ => arbitrary(),
    }
}

/// What the audit log says of an edit, given what the store replied.
pub open spec fn edit_event(request: Request, reply: StoreReply) -> EventType
    recommends
        is_edit(request),
        fits(request, reply),
{
    let policy_set_id = edited_policy_set(request);
    match request {
        Request::AddPolicyToPolicySet { id, body } => EventType::ArPolicySetEdited {
            policy_set_id,
            edited_type: EditedType::PolicyAdded { policy_id: reply->Written_0.id },
        },
        Request::ReplacePolicyInPolicySet { policy_set_id, policy_id, body } => {
            EventType::ArPolicySetEdited {
                policy_set_id,
                edited_type: EditedType::PolicyReplaced {
                    old_policy_id: policy_id,
                    new_policy_id: reply->Written_0.id,
                },
            }
        },
        Request::DeletePolicyFromPolicySet { policy_set_id, policy_id } => {
            EventType::ArPolicySetEdited {
                policy_set_id,
                edited_type: EditedType::PolicyRemoved { policy_id },
            }
        },
        _ => EventType::ArPolicySetDeleted { policy_set_id },
    }
}

/// The audit entry of an edit: it is filed under the identifier of the policy
/// set, and carries no remarks.
pub open spec fn audit_entry(request: Request, reply: StoreReply, now: Timestamp) -> AuditEntryView {
    AuditEntryView {
        time: now,
        source: crate::ids::uuid_text(edited_policy_set(request)),
        event_type: edit_event(request, reply),
        data: None,
        context: None,
    }
}

/// The answer where a service provider is not a valid party.
pub open spec fn party_rejected(party: Seq<char>, cause: Seq<char>) -> AppErrorView {
    AppErrorView::Expected {
        status_code: BAD_REQUEST,
        message: "Unable to verify service provider '"@ + party + "' as valid iSHARE party"@,
        reason: cause,
        metadata: None,
    }
}

/// An answer where there is no such policy in the policy set.
pub open spec fn missing_policy(
    message: Seq<char>,
    policy_set_id: Uuid,
    policy_id: Uuid,
) -> AppErrorView {
    AppErrorView::Expected {
        status_code: NOT_FOUND,
        message,
        reason: "Unable to find policy with id '"@ + crate::ids::uuid_text(policy_id)
            + "' and policy set id '"@ + crate::ids::uuid_text(policy_set_id),
        metadata: None,
    }
}

/// The answer where a policy that is looked up is not in the policy set.
pub open spec fn policy_not_found(policy_set_id: Uuid, policy_id: Uuid) -> AppErrorView {
    missing_policy("Can't find policy"@, policy_set_id, policy_id)
}

/// The answer where the policy set that is to be edited is not there.
pub open spec fn policy_set_to_edit_not_found(policy_set_id: Uuid) -> AppErrorView {
    AppErrorView::Expected {
        status_code: NOT_FOUND,
        message: "Policy set not found"@,
        reason: "Unable to find policy set with id '"@ + crate::ids::uuid_text(policy_set_id) + "'"@,
        metadata: None,
    }
}

/// The answer where what is to be edited is not there.
pub open spec fn nothing_to_edit(request: Request) -> AppErrorView
    recommends
        is_edit(request),
{
    match request {
        Request::ReplacePolicyInPolicySet { policy_set_id, policy_id, body } => missing_policy(
            "Policy set or policy not found"@,
            policy_set_id,
            policy_id,
        ),
        Request::DeletePolicyFromPolicySet { policy_set_id, policy_id } => missing_policy(
            "Policy not found"@,
            policy_set_id,
            policy_id,
        ),
        _ => policy_set_to_edit_not_found(edited_policy_set(request)),
    }
}

/// The answer where there is no such policy set.
pub open spec fn policy_set_not_found() -> AppErrorView {
    AppErrorView::Expected {
        status_code: NOT_FOUND,
        message: "Can't find policy set"@,
        reason: "Can't find policy set"@,
        metadata: None,
    }
}

/// What the registry was doing for a request when a step of it failed.
pub open spec fn step_context(request: Request, step: Step) -> Seq<char> {
    match step {
        Step::Begin => if request is AddPolicyToPolicySet {
            "error starting db connection"@
        } else {
            "error starting db transaction"@
        },
        Step::Log => if request is AddPolicyToPolicySet {
            "error logging policy added event"@
        } else if request is DeletePolicySet {
            "Error logging policy set deleted event"@
        } else {
            "Error logging policy set edited event"@
        },
        Step::Commit => "error commiting transaction to db"@,
        _ => "Error getting policicy sets"@,
    }
}

/// The answer to a request one of whose steps has failed with `cause`.
pub open spec fn step_failed(request: Request, step: Step, cause: Seq<char>) -> AppErrorView {
    match step {
        Step::ValidateParty { party } => party_rejected(party, cause),
        _ => crate::error::unexpected(step_context(request, step), cause),
    }
}

/// The answer to a request all of whose steps have succeeded.
pub open spec fn conclusion(request: Request, reply: StoreReply) -> Result<Response, AppErrorView> {
    match reply {
        StoreReply::Done => Ok(
            Response {
                status: if is_edit(request) {
                    NO_CONTENT
                } else {
                    OK
                },
                body: ResponseBody::Empty,
            },
        ),
        StoreReply::Inserted(uuid) => Ok(
            Response {
                status: OK,
                body: if request is InsertPolicySetTemplate {
                    ResponseBody::TemplateInserted(InsertPolicySetTemplateResponse { uuid })
                } else {
                    ResponseBody::PolicySetInserted(InsertPolicySetResponse { uuid })
                },
            },
        ),
        StoreReply::Written(policy) => Ok(
            Response { status: OK, body: ResponseBody::Policy(policy) },
        ),
        StoreReply::FoundPolicy(Some(policy)) => Ok(
            Response { status: OK, body: ResponseBody::Policy(policy) },
        ),
        StoreReply::FoundPolicy(None) => Err(
            policy_not_found(request->GetPolicy_policy_set_id, request->GetPolicy_policy_id),
        ),
        StoreReply::FoundPolicySet(Some(policy_set)) => Ok(
            Response { status: OK, body: ResponseBody::PolicySet(policy_set) },
        ),
        StoreReply::FoundPolicySet(None) => Err(policy_set_not_found()),
        StoreReply::PolicySets(policy_sets) => Ok(
            Response { status: OK, body: ResponseBody::PolicySets(policy_sets) },
        ),
    }
}

/// A request whose first step is begun at `now`.
pub open spec fn started(request: Request, now: Timestamp) -> ExchangeView {
    ExchangeView { request, progress: Progress::AtStep { position: 0, issued_at: now, reply: None } }
}

/// The step that a request is at, unless it is finished.
pub open spec fn current_step(exchange: ExchangeView) -> Step {
    plan(exchange.request)[exchange.progress->position as int]
}

/// What is to be done next for a request.
pub open spec fn action(exchange: ExchangeView) -> ActionView {
    match exchange.progress {
        Progress::Finished { outcome } => ActionView::Respond,
        Progress::AtStep { position, issued_at, reply } => match plan(
            exchange.request,
        )[position as int] {
            Step::ValidateParty { party } => ActionView::ValidateParty { now: issued_at, party },
            Step::Begin => ActionView::Begin,
            Step::LookUp => ActionView::Call {
                scope: Scope::Transaction,
                call: look_up(exchange.request),
            },
            Step::Call => ActionView::Call {
                scope: scope(exchange.request),
                call: store_call(exchange.request, issued_at),
            },
            Step::Log => ActionView::LogEvent {
                entry: audit_entry(exchange.request, reply->0, issued_at),
            },
            Step::Commit => ActionView::Commit,
        },
    }
}

/// Whether a step asks the store for something.
pub open spec fn asks_store(step: Step) -> bool {
    step is Call || step is LookUp
}

/// Whether an event can come of a step. The store fails with an error of the
/// registry, except that a list of policy sets fails with a plain cause, as
/// every other step does.
pub open spec fn answers_step(request: Request, step: Step, event: EventView) -> bool {
    match event {
        EventView::Done => !asks_store(step),
        EventView::Replied(reply) => match step {
            Step::LookUp => fits_look_up(request, reply),
            Step::Call => fits(request, reply),
            _ => false,
        },
        EventView::Refused(error) => asks_store(step) && !(request is GetAllPolicySets),
        EventView::Failed(cause) => asks_store(step) ==> request is GetAllPolicySets,
    }
}

/// Whether an event can come of what is being done for a request.
pub open spec fn answers(exchange: ExchangeView, event: EventView) -> bool {
    exchange.progress is AtStep && answers_step(exchange.request, current_step(exchange), event)
}

/// Whether a step that came to an event succeeded. A look-up succeeds when it
/// finds something.
pub open spec fn is_success(step: Step, event: EventView) -> bool {
    match event {
        EventView::Done => true,
        EventView::Replied(reply) => step is LookUp ==> !finds_nothing(reply),
        _ => false,
    }
}

/// The answer to a request one of whose steps came to an event that is not a
/// success.
pub open spec fn failure(request: Request, step: Step, event: EventView) -> AppErrorView {
    match event {
        EventView::Refused(error) => error,
        EventView::Failed(cause) => step_failed(request, step, cause),
        _ => nothing_to_edit(request),
    }
}

/// What the store has replied to the call for the request, once a step came to
/// `event`.
pub open spec fn reply_after(step: Step, reply: Option<StoreReply>, event: EventView) -> Option<
    StoreReply,
> {
    match (step, event) {
        (Step::Call, EventView::Replied(reply)) => Some(reply),
        _ => reply,
    }
}

/// A request after its current step came to `event`, with the next step, if
/// there is one, begun at `now`: a success takes it one step further, and after
/// the last step to its conclusion; a failure ends it.
pub open spec fn resumed(exchange: ExchangeView, event: EventView, now: Timestamp) -> ExchangeView {
    let request = exchange.request;
    let step = current_step(exchange);
    let position = exchange.progress->position;
    let reply = reply_after(step, exchange.progress->reply, event);
    ExchangeView {
        request,
        progress: if !is_success(step, event) {
            Progress::Finished { outcome: Err(failure(request, step, event)) }
        } else if position + 1 == plan(request).len() {
            Progress::Finished { outcome: conclusion(request, reply->0) }
        } else {
            Progress::AtStep { position: position + 1, issued_at: now, reply }
        },
    }
}

} // verus!
